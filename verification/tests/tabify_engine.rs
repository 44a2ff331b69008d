use tabify_explorer::tabify_engine::{
    add_discovered_window, next_watcher_tick, pick_new_tab, BeginOutcome, FolderPathPoller,
    MergeAction, MergeEvent, MergeSession, MergeStage, PollOutcome, TabifyEngine, WatcherRound,
};

fn start(engine: &mut TabifyEngine, hwnd: isize) -> MergeSession {
    match engine.process_window(hwnd, true) {
        BeginOutcome::Started(s) => s,
        _ => panic!("merge did not start"),
    }
}

#[test]
fn full_merge_through_com() {
    let mut e = TabifyEngine::new();
    e.register_known_hwnd(100);
    let mut s = start(&mut e, 200);
    assert!(!e.should_process_discovered(200));
    assert_eq!(e.process_window_step(&mut s, MergeEvent::TargetSearched(Some(100))), MergeAction::HideWindow);
    assert_eq!(s.target, 100);
    assert_eq!(e.process_window_step(&mut s, MergeEvent::WindowHidden(true)), MergeAction::CheckShiftKey);
    assert_eq!(e.process_window_step(&mut s, MergeEvent::ShiftKeyChecked(false)), MergeAction::CheckDrag);
    assert_eq!(e.process_window_step(&mut s, MergeEvent::DragChecked(false)), MergeAction::ResolveFolderPath);
    assert_eq!(
        e.process_window_step(&mut s, MergeEvent::FolderPathResolved(Some("C:\\Work".to_string()))),
        MergeAction::ListTargetTabs
    );
    assert_eq!(
        e.process_window_step(&mut s, MergeEvent::TargetTabsListed(vec!["C:\\Other".to_string()])),
        MergeAction::CreateTab
    );
    assert_eq!(
        e.process_window_step(&mut s, MergeEvent::TabCreated { created: true, unify_view_mode: true }),
        MergeAction::OpenNewTab { query_view_mode: true }
    );
    assert_eq!(e.process_window_step(&mut s, MergeEvent::ComNavigated(true)), MergeAction::CompleteMerge);
    assert_eq!(s.stage, MergeStage::Finished);
    // Merged windows are closed, not remembered, and no longer in progress.
    assert!(e.should_process_discovered(200));
    assert!(!e.should_process_discovered(100));
}

#[test]
fn merge_falls_back_to_address_bar() {
    let mut e = TabifyEngine::new();
    let mut s = start(&mut e, 7);
    e.process_window_step(&mut s, MergeEvent::TargetSearched(Some(1)));
    e.process_window_step(&mut s, MergeEvent::WindowHidden(true));
    e.process_window_step(&mut s, MergeEvent::ShiftKeyChecked(false));
    e.process_window_step(&mut s, MergeEvent::DragChecked(false));
    e.process_window_step(&mut s, MergeEvent::FolderPathResolved(Some("D:\\x".to_string())));
    e.process_window_step(&mut s, MergeEvent::TargetTabsListed(vec![]));
    assert_eq!(
        e.process_window_step(&mut s, MergeEvent::TabCreated { created: true, unify_view_mode: false }),
        MergeAction::OpenNewTab { query_view_mode: false }
    );
    assert_eq!(e.process_window_step(&mut s, MergeEvent::ComNavigated(false)), MergeAction::NavigateAddressBar);
    assert_eq!(
        e.process_window_step(&mut s, MergeEvent::AddressBarNavigated(false)),
        MergeAction::RestoreAndKeep
    );
    assert!(!e.should_process_discovered(7));
    assert!(matches!(e.process_window(7, true), BeginOutcome::AlreadyKnown));
}

#[test]
fn no_target_keeps_window_as_base() {
    let mut e = TabifyEngine::new();
    let mut s = start(&mut e, 5);
    assert!(matches!(e.process_window(5, true), BeginOutcome::AlreadyProcessing));
    assert_eq!(e.process_window_step(&mut s, MergeEvent::TargetSearched(None)), MergeAction::KeepAsBase);
    assert!(matches!(e.process_window(5, true), BeginOutcome::AlreadyKnown));
    assert!(matches!(e.process_window(6, false), BeginOutcome::NotExplorer));
}

#[test]
fn bypasses_restore_window() {
    for case in 0..4 {
        let mut e = TabifyEngine::new();
        let mut s = start(&mut e, 9);
        e.process_window_step(&mut s, MergeEvent::TargetSearched(Some(3)));
        if case == 0 {
            assert_eq!(e.process_window_step(&mut s, MergeEvent::WindowHidden(false)), MergeAction::KeepAsBase);
            continue;
        }
        e.process_window_step(&mut s, MergeEvent::WindowHidden(true));
        if case == 1 {
            assert_eq!(e.process_window_step(&mut s, MergeEvent::ShiftKeyChecked(true)), MergeAction::RestoreAndKeep);
            continue;
        }
        e.process_window_step(&mut s, MergeEvent::ShiftKeyChecked(false));
        if case == 2 {
            assert_eq!(e.process_window_step(&mut s, MergeEvent::DragChecked(true)), MergeAction::RestoreAndKeep);
            continue;
        }
        e.process_window_step(&mut s, MergeEvent::DragChecked(false));
        e.process_window_step(&mut s, MergeEvent::FolderPathResolved(Some("C:/A/".to_string())));
        assert_eq!(
            e.process_window_step(&mut s, MergeEvent::TargetTabsListed(vec!["c:\\a".to_string()])),
            MergeAction::CheckDragOut
        );
        assert_eq!(e.process_window_step(&mut s, MergeEvent::DragOutChecked(true)), MergeAction::RestoreAndKeep);
        assert!(!e.should_process_discovered(9));
    }
}

#[test]
fn unexpected_events_are_ignored() {
    let mut e = TabifyEngine::new();
    let mut s = start(&mut e, 4);
    assert_eq!(e.process_window_step(&mut s, MergeEvent::ComNavigated(true)), MergeAction::Ignored);
    assert_eq!(s.stage, MergeStage::FindTarget);
    assert_eq!(e.process_window_step(&mut s, MergeEvent::TargetSearched(None)), MergeAction::KeepAsBase);
    assert_eq!(e.process_window_step(&mut s, MergeEvent::TargetSearched(None)), MergeAction::Ignored);
}

#[test]
fn resolve_failure_and_tab_failure_restore() {
    let mut e = TabifyEngine::new();
    let mut s = start(&mut e, 11);
    e.process_window_step(&mut s, MergeEvent::TargetSearched(Some(1)));
    e.process_window_step(&mut s, MergeEvent::WindowHidden(true));
    e.process_window_step(&mut s, MergeEvent::ShiftKeyChecked(false));
    e.process_window_step(&mut s, MergeEvent::DragChecked(false));
    assert_eq!(e.process_window_step(&mut s, MergeEvent::FolderPathResolved(None)), MergeAction::RestoreAndKeep);

    let mut s = start(&mut e, 12);
    e.process_window_step(&mut s, MergeEvent::TargetSearched(Some(1)));
    e.process_window_step(&mut s, MergeEvent::WindowHidden(true));
    e.process_window_step(&mut s, MergeEvent::ShiftKeyChecked(false));
    e.process_window_step(&mut s, MergeEvent::DragChecked(false));
    e.process_window_step(&mut s, MergeEvent::FolderPathResolved(Some("C:\\".to_string())));
    e.process_window_step(&mut s, MergeEvent::TargetTabsListed(vec!["C:\\Users".to_string()]));
    assert_eq!(
        e.process_window_step(&mut s, MergeEvent::TabCreated { created: false, unify_view_mode: true }),
        MergeAction::RestoreAndKeep
    );
}

#[test]
fn known_window_bookkeeping() {
    let mut e = TabifyEngine::new();
    e.register_existing_windows(&vec![1, 2, 3, 2]);
    let mut k = e.known_hwnds();
    k.sort();
    assert_eq!(k, vec![1, 2, 3]);
    assert!(!e.needs_cleanup());
    assert_eq!(e.cleanup_dead_hwnds(&vec![2, 9]), 1);
    let mut k = e.known_hwnds();
    k.sort();
    assert_eq!(k, vec![1, 3]);
    for h in 10..31 {
        e.register_known_hwnd(h);
    }
    assert!(e.needs_cleanup());
}

#[test]
fn folder_poller_finds_real_folder_after_home() {
    let mut p = FolderPathPoller::new(None);
    assert_eq!(p.attempts_left, 500);
    assert!(matches!(p.observe(None), PollOutcome::Continue));
    assert!(matches!(p.observe(Some("Home".to_string())), PollOutcome::Continue));
    assert_eq!(p.last_home_path, Some("Home".to_string()));
    match p.observe(Some("shell:Personal".to_string())) {
        PollOutcome::Found(f) => assert_eq!(f, "shell:Personal"),
        _ => panic!("folder not found"),
    }
}

#[test]
fn folder_poller_resolves_zip_after_home() {
    let mut p = FolderPathPoller::new(None);
    assert!(matches!(p.observe(Some("ホーム".to_string())), PollOutcome::Continue));
    match p.observe(Some("C:\\Users\\u\\a.zip".to_string())) {
        PollOutcome::Found(f) => assert_eq!(f, "C:\\Users\\u\\a.zip"),
        _ => panic!("zip folder not resolved"),
    }
}

#[test]
fn watcher_round_lists_each_window_once() {
    let mut list = Vec::new();
    add_discovered_window(&mut list, 11, 100, true);
    add_discovered_window(&mut list, 12, 100, true);
    add_discovered_window(&mut list, 13, 200, true);
    add_discovered_window(&mut list, 0, 300, true);
    add_discovered_window(&mut list, 14, 400, false);
    assert_eq!(list, vec![100, 200]);
}

#[test]
fn folder_poller_gives_up() {
    let mut p = FolderPathPoller::new(Some("C:\\cmd".to_string()));
    assert_eq!(p.attempts_left, 150);
    for _ in 0..149 {
        assert!(matches!(p.observe_with(Some("Home".to_string()), true), PollOutcome::Continue));
    }
    match p.observe_with(None, false) {
        PollOutcome::Exhausted(f) => assert_eq!(f, Some("C:\\cmd".to_string())),
        _ => panic!("poller did not give up"),
    }
    let mut q = FolderPathPoller { cmdline_path: None, attempts_left: 1, last_home_path: None };
    match q.observe_with(Some("home".to_string()), true) {
        PollOutcome::Exhausted(f) => assert_eq!(f, Some("home".to_string())),
        _ => panic!("poller did not give up"),
    }
    match q.observe_with(Some("D:\\x".to_string()), true) {
        PollOutcome::Exhausted(f) => assert_eq!(f, Some("home".to_string())),
        _ => panic!("poller did not stay exhausted"),
    }
}

#[test]
fn new_tab_selection() {
    assert_eq!(pick_new_tab(&vec![1, 2], &vec![1, 2, 3]), Some(2));
    assert_eq!(pick_new_tab(&vec![1, 2], &vec![5, 1, 2]), Some(0));
    assert_eq!(pick_new_tab(&vec![1, 2], &vec![1, 2]), None);
    assert_eq!(pick_new_tab(&vec![1, 1], &vec![1, 1, 1]), Some(2));
    assert_eq!(pick_new_tab(&vec![], &vec![]), None);
}

#[test]
fn watcher_helpers() {
    assert_eq!(next_watcher_tick(0), (1, false));
    assert_eq!(next_watcher_tick(49), (50, true));
    assert_eq!(next_watcher_tick(u32::MAX), (0, true));
    let mut l = Vec::new();
    add_discovered_window(&mut l, 5, 50, true);
    add_discovered_window(&mut l, 6, 50, true);
    add_discovered_window(&mut l, 0, 70, true);
    add_discovered_window(&mut l, 8, 80, false);
    add_discovered_window(&mut l, 9, 90, true);
    assert_eq!(l, vec![50, 90]);
}

#[test]
fn watcher_round_hands_out_unknown_windows_once() {
    let mut e = TabifyEngine::new();
    e.register_known_hwnd(100);
    let mut round = WatcherRound::new();
    round.add_browser(1, 100, true);
    round.add_browser(2, 200, true);
    round.add_browser(3, 200, true);
    round.add_browser(4, 300, false);
    round.add_browser(5, 400, true);
    assert_eq!(round.next_to_process(&e), Some(200));
    assert!(matches!(e.process_window(400, true), BeginOutcome::Started(_)));
    assert_eq!(round.next_to_process(&e), None);
    assert_eq!(round.next_to_process(&e), None);
}

#[test]
fn abandoned_merge_clears_processing_mark() {
    let mut e = TabifyEngine::new();
    assert!(matches!(e.process_window(9, true), BeginOutcome::Started(_)));
    assert!(!e.should_process_discovered(9));
    e.abandon_merge(9);
    assert!(e.should_process_discovered(9));
    e.abandon_merge(9);
    assert!(matches!(e.process_window(9, true), BeginOutcome::Started(_)));
}
