use tabify_explorer::window_controller::{
    find_existing_explorer_window, get_root_hwnd, hide_window, is_explorer_class,
    is_normal_visible_explorer_window, key_state_is_down, restore_window, MouseDragState,
    Placement, Rect, RectStore, TargetCandidate, WindowFacts, DRAG_BYPASS_MS,
};

fn facts() -> WindowFacts {
    WindowFacts {
        hwnd: 10,
        is_explorer: true,
        visible: true,
        iconic: false,
        cloaked: Some(false),
        rect: Some(Rect { left: 0, top: 0, right: 800, bottom: 600 }),
    }
}

#[test]
fn explorer_class_names() {
    assert!(is_explorer_class("CabinetWClass"));
    assert!(is_explorer_class("cabinetwclass"));
    assert!(is_explorer_class("CABINETWCLASS"));
    assert!(!is_explorer_class("CabinetWClass2"));
    assert!(!is_explorer_class("ExploreWClass"));
    assert!(!is_explorer_class(""));
}

#[test]
fn normal_visible_decisions() {
    assert!(is_normal_visible_explorer_window(&facts(), None));
    assert!(!is_normal_visible_explorer_window(&facts(), Some(10)));
    assert!(is_normal_visible_explorer_window(&facts(), Some(11)));
    let mut f = facts();
    f.cloaked = None;
    assert!(is_normal_visible_explorer_window(&f, None));
    f.cloaked = Some(true);
    assert!(!is_normal_visible_explorer_window(&f, None));
    let mut f = facts();
    f.rect = Some(Rect { left: -32000, top: -32000, right: 0, bottom: 0 });
    assert!(!is_normal_visible_explorer_window(&f, None));
    f.rect = None;
    assert!(!is_normal_visible_explorer_window(&f, None));
    let mut f = facts();
    f.iconic = true;
    assert!(!is_normal_visible_explorer_window(&f, None));
    let mut f = facts();
    f.hwnd = 0;
    assert!(!is_normal_visible_explorer_window(&f, None));
}

#[test]
fn root_windows() {
    assert_eq!(get_root_hwnd(0, 5), 0);
    assert_eq!(get_root_hwnd(3, 5), 5);
    assert_eq!(get_root_hwnd(3, 0), 3);
}

#[test]
fn target_search() {
    let c = |hwnd, root, is_explorer, normal_visible| TargetCandidate { hwnd, root, is_explorer, normal_visible };
    let list = vec![c(1, 1, false, false), c(2, 9, true, true), c(3, 3, true, false), c(4, 4, true, true), c(5, 5, true, true)];
    assert_eq!(find_existing_explorer_window(&list, 9), Some(4));
    assert_eq!(find_existing_explorer_window(&list, 4), Some(2));
    assert_eq!(find_existing_explorer_window(&vec![c(1, 1, true, true)], 1), None);
}

#[test]
fn hide_and_restore() {
    let mut store = RectStore::new();
    let r = Rect { left: 10, top: 20, right: 810, bottom: 620 };
    let (rect, park) = hide_window(&mut store, 1, Some(r));
    assert_eq!(rect, r);
    assert_eq!(park, Placement { left: -32000, top: -32000, width: 800, height: 600 });
    assert_eq!(store.get_saved_rect(1), Some(r));
    // A second hide keeps the first position.
    let moved = Rect { left: -32000, top: -32000, right: -31000, bottom: -31000 };
    let (rect2, _) = hide_window(&mut store, 1, Some(moved));
    assert_eq!(rect2, r);
    let placed = restore_window(&mut store, 1, true, Some(moved));
    assert_eq!(placed, Some(Placement { left: 10, top: 20, width: 800, height: 600 }));
    assert_eq!(store.get_saved_rect(1), None);
    // Nothing known: default position and size.
    let placed = restore_window(&mut store, 2, true, None);
    assert_eq!(placed, Some(Placement { left: 100, top: 100, width: 800, height: 600 }));
    // A window that no longer exists is forgotten and not placed.
    hide_window(&mut store, 3, Some(r));
    assert_eq!(restore_window(&mut store, 3, false, Some(r)), None);
    assert_eq!(store.get_saved_rect(3), None);
}

#[test]
fn hide_without_rectangle() {
    let mut store = RectStore::new();
    let (rect, park) = hide_window(&mut store, 1, None);
    assert_eq!(rect, Rect { left: 0, top: 0, right: 0, bottom: 0 });
    assert_eq!(park, Placement { left: -32000, top: -32000, width: 800, height: 600 });
    let offscreen = Rect { left: -20000, top: 0, right: -19000, bottom: 50 };
    let (_, park) = hide_window(&mut store, 2, Some(offscreen));
    assert_eq!(park.width, 1000);
    assert_eq!(park.height, 50);
    assert_eq!(store.get_saved_rect(2), None);
    let small = Rect { left: 5, top: 5, right: 50, bottom: 50 };
    assert_eq!(
        restore_window(&mut store, 2, true, Some(small)),
        Some(Placement { left: 5, top: 5, width: 800, height: 600 })
    );
}

#[test]
fn rect_store_take() {
    let mut store = RectStore::new();
    let r = Rect { left: 1, top: 2, right: 3, bottom: 4 };
    store.save_rect(7, r);
    store.save_rect(8, r);
    assert_eq!(store.get_and_remove_saved_rect(7), Some(r));
    assert_eq!(store.get_and_remove_saved_rect(7), None);
    assert_eq!(store.get_saved_rect(8), Some(r));
}

#[test]
fn drag_tracking() {
    let mut m = MouseDragState::new();
    m.update(true, 100, 100, 0);
    assert!(!m.is_drag_and_drop_active_or_recent(0, DRAG_BYPASS_MS));
    m.update(true, 110, 110, 10);
    assert!(!m.is_dragging);
    m.update(true, 116, 100, 20);
    assert!(m.is_dragging);
    assert!(m.is_drag_and_drop_active_or_recent(5000, DRAG_BYPASS_MS));
    m.update(false, 116, 100, 1000);
    assert!(!m.is_down);
    assert_eq!(m.last_drag_time, Some(1000));
    assert!(m.is_drag_and_drop_active_or_recent(2199, DRAG_BYPASS_MS));
    assert!(!m.is_drag_and_drop_active_or_recent(2200, DRAG_BYPASS_MS));
}

#[test]
fn click_is_not_a_drag() {
    let mut m = MouseDragState::new();
    m.update(true, 5, 5, 0);
    m.update(false, 5, 5, 10);
    assert!(!m.is_drag_and_drop_active_or_recent(10, DRAG_BYPASS_MS));
}

#[test]
fn key_states() {
    assert!(key_state_is_down(-32768));
    assert!(key_state_is_down(-1));
    assert!(!key_state_is_down(1));
    assert!(!key_state_is_down(0));
}
