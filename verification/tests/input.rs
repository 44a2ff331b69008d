use tabify_explorer::input::{
    address_bar_confirm, address_bar_focus, last_tab_shortcut, modifier_key_list, new_tab_shortcut,
    modifier_releases, needs_thread_attach, typed_path, utf16_units, KeyInput, VK_9, VK_CONTROL,
    VK_LWIN, VK_SHIFT,
};

fn k(vk: u16, key_up: bool) -> KeyInput {
    KeyInput { vk, scan: 0, unicode: false, key_up }
}

#[test]
fn shortcuts() {
    assert_eq!(
        last_tab_shortcut(),
        vec![k(VK_CONTROL, false), k(VK_9, false), k(VK_9, true), k(VK_CONTROL, true)]
    );
    assert_eq!(address_bar_focus(), vec![k(0x12, false), k(0x44, false), k(0x44, true), k(0x12, true)]);
    assert_eq!(address_bar_confirm(), vec![k(0x0D, false), k(0x0D, true)]);
}

#[test]
fn new_tab_shortcut_is_ctrl_t() {
    assert_eq!(new_tab_shortcut(), vec![k(0x11, false), k(0x54, false), k(0x54, true), k(0x11, true)]);
}

#[test]
fn utf16_matches_std() {
    for s in ["", "C:\\Users", "デスクトップ", "a😀b"] {
        assert_eq!(utf16_units(s), s.encode_utf16().collect::<Vec<u16>>());
    }
}

#[test]
fn typed_path_events() {
    let v = typed_path("A😀");
    assert_eq!(v.len(), 6);
    assert_eq!(v[0], KeyInput { vk: 0, scan: 0x41, unicode: true, key_up: false });
    assert_eq!(v[1], KeyInput { vk: 0, scan: 0x41, unicode: true, key_up: true });
    assert_eq!(v[2].scan, 0xD83D);
    assert_eq!(v[4].scan, 0xDE00);
    assert!(v[5].key_up);
}

#[test]
fn releases_and_attach() {
    let keys = modifier_key_list();
    assert_eq!(keys.len(), 9);
    let mut held = vec![false; 9];
    held[0] = true;
    held[3] = true;
    held[7] = true;
    assert_eq!(
        modifier_releases(&keys, &held),
        vec![k(VK_CONTROL, true), k(VK_SHIFT, true), k(VK_LWIN, true)]
    );
    assert!(needs_thread_attach(1, 2));
    assert!(!needs_thread_attach(2, 2));
    assert!(!needs_thread_attach(1, 0));
}
