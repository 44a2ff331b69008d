use tabify_explorer::tray::{
    route_tray_window_message, tray_menu_entries, tray_tip_units, MenuEntry, TrayWindowRoute,
    WM_TRAYICON, ID_TRAY_LOG,
};
use tabify_explorer::config::{Config, ConfigAction};
use tabify_explorer::tray::{
    handle_menu_command, menu_command_from, menu_may_open, should_show_menu, tray_notification,
    tray_retry_delay_ms, MenuCommand, MenuOutcome, ID_TRAY_AUTO_START, ID_TRAY_ENABLE_LOG,
    ID_TRAY_EXIT, ID_TRAY_UNIFY_VIEW, WM_LBUTTONUP, WM_RBUTTONUP,
};

#[test]
fn menu_notifications() {
    assert!(should_show_menu(WM_RBUTTONUP));
    assert!(should_show_menu(WM_LBUTTONUP));
    assert!(should_show_menu(0x007B));
    assert!(should_show_menu(0x0400));
    assert!(should_show_menu(0x0401));
    assert!(!should_show_menu(0x0200));
    assert_eq!(tray_notification(0x0003_0205), 0x0205);
}

#[test]
fn menu_debounce() {
    let mut last = None;
    assert!(menu_may_open(&mut last, 1000));
    assert!(!menu_may_open(&mut last, 1200));
    assert!(menu_may_open(&mut last, 1300));
    assert_eq!(last, Some(1300));
}

#[test]
fn menu_commands() {
    assert_eq!(menu_command_from(ID_TRAY_EXIT), Some(MenuCommand::Exit));
    assert_eq!(menu_command_from(0x5_0000 + ID_TRAY_UNIFY_VIEW), Some(MenuCommand::ToggleUnifyView));
    assert_eq!(menu_command_from(1), None);
    let mut c = Config::default();
    match handle_menu_command(&mut c, ID_TRAY_AUTO_START) {
        MenuOutcome::SettingChanged { value, actions } => {
            assert!(value);
            assert_eq!(actions, vec![ConfigAction::WriteAutoStart(true), ConfigAction::SaveConfig]);
        }
        _ => panic!("auto-start not toggled"),
    }
    assert!(c.auto_start);
    match handle_menu_command(&mut c, ID_TRAY_ENABLE_LOG) {
        MenuOutcome::SettingChanged { value, actions } => {
            assert!(value);
            assert_eq!(actions, vec![ConfigAction::InitLogger, ConfigAction::SaveConfig]);
        }
        _ => panic!("log not toggled"),
    }
    assert!(matches!(handle_menu_command(&mut c, ID_TRAY_EXIT), MenuOutcome::Exit));
    assert!(matches!(handle_menu_command(&mut c, 4242), MenuOutcome::Nothing));
    assert_eq!(c, Config { unify_view_mode: true, auto_start: true, enable_log: true });
}

#[test]
fn tray_retries() {
    assert_eq!(tray_retry_delay_ms(1), Some(150));
    assert_eq!(tray_retry_delay_ms(2), Some(300));
    assert_eq!(tray_retry_delay_ms(3), None);
}

#[test]
fn tray_routing_menu_and_tip() {
    assert_eq!(route_tray_window_message(WM_TRAYICON), TrayWindowRoute::TrayIcon);
    assert_eq!(route_tray_window_message(0x0111), TrayWindowRoute::MenuCommand);
    assert_eq!(route_tray_window_message(0x0010), TrayWindowRoute::Default);
    let c = Config { unify_view_mode: false, auto_start: true, enable_log: false };
    let m = tray_menu_entries(&c);
    assert_eq!(m.len(), 9);
    assert!(matches!(m[0], MenuEntry::Item { checked: Some(false), .. }));
    assert!(matches!(m[1], MenuEntry::Item { checked: Some(true), .. }));
    assert!(matches!(m[2], MenuEntry::Separator));
    assert!(matches!(m[4], MenuEntry::Item { id, checked: None, .. } if id == ID_TRAY_LOG));
    assert_eq!(tray_tip_units("TabifyExplorer"), "TabifyExplorer\0".encode_utf16().collect::<Vec<u16>>());
    let long = "x".repeat(200);
    let tip = tray_tip_units(&long);
    assert_eq!(tip.len(), 127);
    assert!(tip.iter().all(|&u| u == 0x78));
}
