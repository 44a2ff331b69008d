use tabify_explorer::com_navigator::{browser_is_ready, is_tab_of_other_session, tab_session_id};
use tabify_explorer::com_navigator::{
    navigate_start, navigate_step, NavAction, NavEvent, NavStep, NAVIGATE2_ATTEMPTS, READY_STATE_POLLS,
};
use tabify_explorer::com_navigator::{
    browser_belongs_to, browser_shows_path, folder_of_browser, get_all_window_paths,
    get_window_path, paths_include, BrowserInfo,
};

fn b(hwnd: isize, root: isize, doc: Option<&str>, loc: Option<&str>) -> BrowserInfo {
    BrowserInfo {
        hwnd,
        root,
        document_path: doc.map(|s| s.to_string()),
        location_url: loc.map(|s| s.to_string()),
    }
}

#[test]
fn belonging() {
    assert!(browser_belongs_to(5, 1, 5, 9));
    assert!(browser_belongs_to(4, 9, 5, 9));
    assert!(browser_belongs_to(4, 5, 5, 9));
    assert!(browser_belongs_to(9, 1, 5, 9));
    assert!(!browser_belongs_to(4, 1, 5, 9));
}

#[test]
fn browser_folders() {
    assert_eq!(folder_of_browser(&b(1, 1, Some("C:\\A"), Some("file:///D:/B"))), Some("C:\\A".to_string()));
    assert_eq!(folder_of_browser(&b(1, 1, Some(""), Some("file:///D:/B"))), Some("D:\\B".to_string()));
    assert_eq!(folder_of_browser(&b(1, 1, None, Some(""))), None);
    assert_eq!(folder_of_browser(&b(1, 1, None, Some("about:blank"))), None);
}

#[test]
fn window_paths() {
    let list = vec![
        b(1, 1, Some("X:\\other"), None),
        b(2, 7, None, Some("about:blank")),
        b(3, 7, Some("C:\\A"), None),
        b(4, 7, None, Some("shell:Downloads")),
    ];
    assert_eq!(get_all_window_paths(7, 7, &list), vec!["C:\\A".to_string(), "shell:Downloads".to_string()]);
    assert_eq!(get_window_path(7, 7, &list), Some("C:\\A".to_string()));
    assert_eq!(get_window_path(0, 7, &list), None);
    assert!(get_all_window_paths(0, 7, &list).is_empty());
    assert_eq!(get_window_path(8, 8, &list), None);
}

#[test]
fn path_checks() {
    let paths = vec!["C:\\A".to_string(), "shell:Downloads".to_string()];
    assert!(paths_include(&paths, "c:/a/"));
    assert!(!paths_include(&paths, "C:\\B"));
    assert!(browser_shows_path(&Some("C:\\A".to_string()), &None, "c:\\a"));
    assert!(browser_shows_path(&Some("C:\\Z".to_string()), &Some("file:///C:/A".to_string()), "C:\\A"));
    assert!(!browser_shows_path(&None, &Some(String::new()), ""));
}

#[test]
fn sessions_and_readiness() {
    assert_eq!(tab_session_id(None), 0);
    assert_eq!(tab_session_id(Some(Some(7))), 7);
    assert_eq!(tab_session_id(Some(None)), usize::MAX);
    assert!(is_tab_of_other_session(0, 3));
    assert!(!is_tab_of_other_session(3, 3));
    assert!(browser_is_ready(3));
    assert!(browser_is_ready(4));
    assert!(!browser_is_ready(2));
}

#[test]
fn navigation_waits_then_browses() {
    let (step, action) = navigate_start();
    assert_eq!(action, NavAction::ReadReadyState { pause_first: false });
    let (step, action) = navigate_step(step, NavEvent::ReadyState(Some(1)), true);
    assert_eq!((step, action), (NavStep::WaitReady(1), NavAction::ReadReadyState { pause_first: true }));
    let (step, action) = navigate_step(step, NavEvent::ReadyState(Some(4)), true);
    assert_eq!((step, action), (NavStep::BrowseObject, NavAction::TryBrowseObject { pause_first: false }));
    let (step, action) = navigate_step(step, NavEvent::Browsed(true), true);
    assert_eq!((step, action), (NavStep::Done, NavAction::Succeeded));
    assert_eq!(navigate_step(step, NavEvent::Browsed(true), true).1, NavAction::Ignored);
}

#[test]
fn navigation_gives_up_waiting_after_fifteen_reads() {
    let (mut step, _) = navigate_start();
    let mut last = NavAction::Ignored;
    for _ in 0..READY_STATE_POLLS {
        let r = navigate_step(step, NavEvent::ReadyState(None), false);
        step = r.0;
        last = r.1;
    }
    assert_eq!((step, last), (NavStep::BrowseObject, NavAction::TryBrowseObject { pause_first: true }));
}

#[test]
fn navigation_falls_back_to_address_bar_after_three_attempts() {
    let mut step = NavStep::BrowseObject;
    let mut r = navigate_step(step, NavEvent::Browsed(false), true);
    assert_eq!(r, (NavStep::Navigate2(0), NavAction::TryNavigate2));
    for _ in 0..NAVIGATE2_ATTEMPTS - 1 {
        step = r.0;
        r = navigate_step(step, NavEvent::Navigated(false), true);
        assert_eq!(r.1, NavAction::TryNavigate2);
    }
    let last = navigate_step(r.0, NavEvent::Navigated(false), true);
    assert_eq!(last, (NavStep::AddressBar, NavAction::NavigateAddressBar));
    assert_eq!(navigate_step(last.0, NavEvent::AddressBarNavigated(false), true), (NavStep::Done, NavAction::Failed));
    assert_eq!(navigate_step(r.0, NavEvent::Navigated(false), false), (NavStep::Done, NavAction::Failed));
    assert_eq!(navigate_step(NavStep::Navigate2(1), NavEvent::Navigated(true), false), (NavStep::Done, NavAction::Succeeded));
}
