//! Reading Explorer's shell browsers: which browser belongs to a window,
//! which folder a browser shows, and the folders of all tabs of a window.

use vstd::prelude::*;
use crate::path_resolver::{are_paths_equivalent, normalized_path, parse_location_url, parsed_location};

verus! {

/// What is read of one shell browser (one Explorer tab).
pub struct BrowserInfo {
    /// The browser's window handle.
    pub hwnd: isize,
    /// Its top-level window.
    pub root: isize,
    /// The path of the folder its document shows, when it could be read.
    pub document_path: Option<String>,
    /// Its `LocationURL`, when it could be read.
    pub location_url: Option<String>,
}

/// Whether a browser belongs to the window `target` (whose top-level window
/// is `target_root`): either handle of the browser is either handle of the
/// target.
pub open spec fn belongs_to(hwnd: isize, root: isize, target: isize, target_root: isize) -> bool {
    hwnd == target || root == target_root || root == target || hwnd == target_root
}

/// Whether a browser belongs to a window.
pub fn browser_belongs_to(hwnd: isize, root: isize, target: isize, target_root: isize) -> (r: bool)
    ensures
        r == belongs_to(hwnd, root, target, target_root),
{
    hwnd == target || root == target_root || root == target || hwnd == target_root
}

/// The folder a browser shows: its document's path when it is not empty,
/// else what its non-empty location URL stands for.
pub open spec fn browser_path(b: BrowserInfo) -> Option<Seq<char>> {
    if b.document_path matches Some(d) && d@.len() > 0 {
        Some(b.document_path->0@)
    } else if b.location_url matches Some(u) && u@.len() > 0 {
        parsed_location(b.location_url->0@)
    } else {
        None
    }
}

/// The folder a browser shows.
pub fn folder_of_browser(b: &BrowserInfo) -> (r: Option<String>)
    ensures
        r matches Some(v) ==> browser_path(*b) == Some(v@),
        r is None ==> browser_path(*b) is None,
{
    if let Some(d) = &b.document_path {
        if d.unicode_len() > 0 {
            return Some(d.clone());
        }
    }
    if let Some(u) = &b.location_url {
        if u.unicode_len() > 0 {
            return parse_location_url(u.as_str());
        }
    }
    None
}

/// The folders shown by the browsers (in order) that belong to the target.
pub open spec fn window_paths(bs: Seq<BrowserInfo>, target: isize, target_root: isize) -> Seq<Seq<char>>
    decreases bs.len(),
{
    if bs.len() == 0 {
        Seq::empty()
    } else {
        let rest = window_paths(bs.drop_last(), target, target_root);
        let b = bs.last();
        if belongs_to(b.hwnd, b.root, target, target_root) && browser_path(b) is Some {
            rest.push(browser_path(b)->0)
        } else {
            rest
        }
    }
}

/// The folder a window shows: that of the first browser of the window whose
/// folder can be read; none for the null window.
pub fn get_window_path(target: isize, target_root: isize, browsers: &Vec<BrowserInfo>) -> (r: Option<String>)
    ensures
        target == 0 ==> r is None,
        target != 0 ==> (r matches Some(v) ==> window_paths(browsers@, target, target_root).len() > 0
            && window_paths(browsers@, target, target_root)[0] == v@),
        target != 0 ==> (r is None ==> window_paths(browsers@, target, target_root).len() == 0),
{
    if target == 0 {
        return None;
    }
    let all = get_all_window_paths(target, target_root, browsers);
    if all.len() > 0 {
        Some(all[0].clone())
    } else {
        None
    }
}

/// The folders of all tabs of a window, in browser order; none for the null
/// window.
pub fn get_all_window_paths(target: isize, target_root: isize, browsers: &Vec<BrowserInfo>) -> (r: Vec<
    String,
>)
    ensures
        target == 0 ==> r@.len() == 0,
        target != 0 ==> r@.len() == window_paths(browsers@, target, target_root).len(),
        target != 0 ==> forall|k: int|
            0 <= k < r@.len() ==> #[trigger] r@[k]@ == window_paths(browsers@, target, target_root)[k],
{
    let mut paths: Vec<String> = Vec::new();
    if target == 0 {
        return paths;
    }
    let mut i: usize = 0;
    while i < browsers.len()
        invariant
            i <= browsers.len(),
            ({
                let w = window_paths(browsers@.subrange(0, i as int), target, target_root);
                &&& paths@.len() == w.len()
                &&& forall|k: int| 0 <= k < paths@.len() ==> #[trigger] paths@[k]@ == w[k]
            }),
        decreases browsers.len() - i,
    {
        let b = &browsers[i];
        proof {
            assert(browsers@.subrange(0, i + 1).drop_last() =~= browsers@.subrange(0, i as int));
        }
        if browser_belongs_to(b.hwnd, b.root, target, target_root) {
            if let Some(p) = folder_of_browser(b) {
                paths.push(p);
            }
        }
        i = i + 1;
    }
    proof {
        assert(browsers@.subrange(0, browsers.len() as int) =~= browsers@);
    }
    paths
}

/// Whether one of the folders shown by a window's tabs is equivalent to the
/// expected one.
pub fn paths_include(paths: &Vec<String>, expected_path: &str) -> (r: bool)
    ensures
        r == exists|k: int|
            0 <= k < paths@.len() && normalized_path(#[trigger] paths@[k]@) == normalized_path(expected_path@),
{
    crate::tabify_engine::any_tab_shows(paths, expected_path)
}

/// Whether a document path is equivalent to the target.
pub open spec fn document_shows(d: Option<String>, target: Seq<char>) -> bool {
    match d {
        Some(d) => normalized_path(d@) == normalized_path(target),
        None => false,
    }
}

/// Whether a non-empty location URL stands for a folder equivalent to the target.
pub open spec fn location_shows(u: Option<String>, target: Seq<char>) -> bool {
    match u {
        Some(u) => u@.len() > 0 && match parsed_location(u@) {
            Some(p) => normalized_path(p) == normalized_path(target),
            None => false,
        },
        None => false,
    }
}

/// Whether one browser shows the target folder: its document's path, or
/// failing that what its non-empty location URL stands for, is equivalent to
/// it.
pub fn browser_shows_path(document_path: &Option<String>, location_url: &Option<String>, target_path: &str) -> (r: bool)
    ensures
        r == (document_shows(*document_path, target_path@) || location_shows(
            *location_url,
            target_path@,
        )),
{
    if let Some(d) = document_path {
        if are_paths_equivalent(d.as_str(), target_path) {
            return true;
        }
    }
    if let Some(u) = location_url {
        if u.unicode_len() > 0 {
            if let Some(p) = parse_location_url(u.as_str()) {
                return are_paths_equivalent(p.as_str(), target_path);
            }
        }
    }
    false
}

/// The session mark read from a tab: 0 when the property could not be read;
/// the stored number (as `usize`) when it is one; `usize::MAX` otherwise.
pub fn tab_session_id(read: Option<Option<i32>>) -> (r: usize)
    ensures
        r == (match read {
            None => 0usize,
            Some(Some(v)) => v as usize,
            Some(None) => usize::MAX,
        }),
{
    match read {
        None => 0,
        Some(Some(v)) => v as usize,
        Some(None) => usize::MAX,
    }
}

/// Whether a tab is the one added in this session: its mark is not the
/// session's.
pub fn is_tab_of_other_session(tab_session: usize, current_session: usize) -> (r: bool)
    ensures
        r == (tab_session != current_session),
{
    tab_session != current_session
}

/// A shell browser is ready once its `ReadyState` reaches interactive (3).
pub fn browser_is_ready(ready_state: i32) -> (r: bool)
    ensures
        r == (ready_state >= 3),
{
    ready_state >= 3
}


/// How often the ready state of a new tab is read before navigation is
/// tried anyway.
pub const READY_STATE_POLLS: u32 = 15;

/// How often `Navigate2` is tried after `BrowseObject` did not show the
/// folder.
pub const NAVIGATE2_ATTEMPTS: u32 = 3;

/// Where the navigation of one tab stands.
#[derive(PartialEq, Eq, Structural, Clone, Copy, Debug)]
pub enum NavStep {
    /// Waiting for the tab to be ready; the number of reads that said it was not.
    WaitReady(u32),
    /// `IShellBrowser::BrowseObject` was asked for.
    BrowseObject,
    /// `IWebBrowser2::Navigate2` was asked for; the number of earlier attempts
    /// that did not show the folder.
    Navigate2(u32),
    /// The address bar of the window was asked to navigate.
    AddressBar,
    /// Finished.
    Done,
}

/// The result of the last outside step of a navigation.
#[derive(PartialEq, Eq, Structural, Clone, Copy, Debug)]
pub enum NavEvent {
    /// The tab's `ReadyState`, when it could be read.
    ReadyState(Option<i32>),
    /// Whether `BrowseObject` succeeded and the tab then shows the folder.
    Browsed(bool),
    /// Whether the tab shows the folder after a `Navigate2`.
    Navigated(bool),
    /// Whether navigation through the address bar succeeded.
    AddressBarNavigated(bool),
}

/// What the caller is to do next.
#[derive(PartialEq, Eq, Structural, Clone, Copy, Debug)]
pub enum NavAction {
    /// Read the tab's `ReadyState`, after a 15 ms pause when asked to.
    ReadReadyState { pause_first: bool },
    /// Navigate with `BrowseObject` and check the tab's folder, after a 15 ms
    /// pause when asked to.
    TryBrowseObject { pause_first: bool },
    /// Navigate with `Navigate2`, wait 30 ms and check the tab's folder.
    TryNavigate2,
    /// Navigate through the window's address bar.
    NavigateAddressBar,
    /// Finished: the tab shows the folder.
    Succeeded,
    /// Finished: navigation failed.
    Failed,
    /// The event was not the one awaited: nothing changed.
    Ignored,
}

/// The first step of a navigation: read the ready state at once.
pub open spec fn nav_start() -> (NavStep, NavAction) {
    (NavStep::WaitReady(0), NavAction::ReadReadyState { pause_first: false })
}

/// The next step and action for an event. The ready state is read up to
/// `READY_STATE_POLLS` times, 15 ms apart, until it says the tab is ready;
/// then `BrowseObject` is tried, then up to `NAVIGATE2_ATTEMPTS` times
/// `Navigate2`; when none shows the folder, the address bar is used if
/// `address_bar_fallback` holds and the navigation fails otherwise.
pub open spec fn nav_transition(step: NavStep, ev: NavEvent, address_bar_fallback: bool) -> (NavStep, NavAction) {
    match (step, ev) {
        (NavStep::WaitReady(n), NavEvent::ReadyState(s)) => if s matches Some(v) && v >= 3 {
            (NavStep::BrowseObject, NavAction::TryBrowseObject { pause_first: false })
        } else if n + 1 < READY_STATE_POLLS {
            (NavStep::WaitReady((n + 1) as u32), NavAction::ReadReadyState { pause_first: true })
        } else {
            (NavStep::BrowseObject, NavAction::TryBrowseObject { pause_first: true })
        },
        (NavStep::BrowseObject, NavEvent::Browsed(shown)) => if shown {
            (NavStep::Done, NavAction::Succeeded)
        } else {
            (NavStep::Navigate2(0), NavAction::TryNavigate2)
        },
        (NavStep::Navigate2(n), NavEvent::Navigated(shown)) => if shown {
            (NavStep::Done, NavAction::Succeeded)
        } else if n + 1 < NAVIGATE2_ATTEMPTS {
            (NavStep::Navigate2((n + 1) as u32), NavAction::TryNavigate2)
        } else if address_bar_fallback {
            (NavStep::AddressBar, NavAction::NavigateAddressBar)
        } else {
            (NavStep::Done, NavAction::Failed)
        },
        (NavStep::AddressBar, NavEvent::AddressBarNavigated(ok)) => if ok {
            (NavStep::Done, NavAction::Succeeded)
        } else {
            (NavStep::Done, NavAction::Failed)
        },
        _ => (step, NavAction::Ignored),
    }
}

/// The first step and action of a navigation.
pub fn navigate_start() -> (r: (NavStep, NavAction))
    ensures
        r == nav_start(),
{
    (NavStep::WaitReady(0), NavAction::ReadReadyState { pause_first: false })
}

/// Takes the result of the last outside step of a navigation and returns
/// the next step and action (see `nav_transition`).
pub fn navigate_step(step: NavStep, ev: NavEvent, address_bar_fallback: bool) -> (r: (NavStep, NavAction))
    ensures
        r == nav_transition(step, ev, address_bar_fallback),
{
    match (step, ev) {
        (NavStep::WaitReady(n), NavEvent::ReadyState(s)) => {
            let ready = match s {
                Some(v) => browser_is_ready(v),
                None => false,
            };
            if ready {
                (NavStep::BrowseObject, NavAction::TryBrowseObject { pause_first: false })
            } else if n < READY_STATE_POLLS - 1 {
                (NavStep::WaitReady(n + 1), NavAction::ReadReadyState { pause_first: true })
            } else {
                (NavStep::BrowseObject, NavAction::TryBrowseObject { pause_first: true })
            }
        },
        (NavStep::BrowseObject, NavEvent::Browsed(shown)) => {
            if shown {
                (NavStep::Done, NavAction::Succeeded)
            } else {
                (NavStep::Navigate2(0), NavAction::TryNavigate2)
            }
        },
        (NavStep::Navigate2(n), NavEvent::Navigated(shown)) => {
            if shown {
                (NavStep::Done, NavAction::Succeeded)
            } else if n < NAVIGATE2_ATTEMPTS - 1 {
                (NavStep::Navigate2(n + 1), NavAction::TryNavigate2)
            } else if address_bar_fallback {
                (NavStep::AddressBar, NavAction::NavigateAddressBar)
            } else {
                (NavStep::Done, NavAction::Failed)
            }
        },
        (NavStep::AddressBar, NavEvent::AddressBarNavigated(ok)) => {
            if ok {
                (NavStep::Done, NavAction::Succeeded)
            } else {
                (NavStep::Done, NavAction::Failed)
            }
        },
        _ => (step, NavAction::Ignored),
    }
}

/// How far a navigation still has to go at most, in answered events.
pub open spec fn nav_remaining(step: NavStep) -> int {
    match step {
        NavStep::WaitReady(n) => READY_STATE_POLLS - n + NAVIGATE2_ATTEMPTS + 2,
        NavStep::BrowseObject => NAVIGATE2_ATTEMPTS + 2,
        NavStep::Navigate2(n) => NAVIGATE2_ATTEMPTS - n + 1,
        NavStep::AddressBar => 1,
        NavStep::Done => 0,
    }
}

/// Every answered event brings a navigation closer to its end, so it ends
/// after at most 15 ready-state reads, one `BrowseObject`, three `Navigate2`
/// attempts and one address-bar navigation; a finished navigation ignores
/// every event.
pub proof fn lemma_navigation_terminates(step: NavStep, ev: NavEvent, fallback: bool)
    requires
        step matches NavStep::WaitReady(n) ==> n < READY_STATE_POLLS,
        step matches NavStep::Navigate2(n) ==> n < NAVIGATE2_ATTEMPTS,
    ensures
        nav_transition(step, ev, fallback).1 != NavAction::Ignored ==> 0 <= nav_remaining(
            nav_transition(step, ev, fallback).0,
        ) < nav_remaining(step),
        nav_transition(step, ev, fallback).0 matches NavStep::WaitReady(m) ==> m < READY_STATE_POLLS,
        nav_transition(step, ev, fallback).0 matches NavStep::Navigate2(m) ==> m < NAVIGATE2_ATTEMPTS,
        step == NavStep::Done ==> nav_transition(step, ev, fallback).1 == NavAction::Ignored,
{
}

/// A navigation succeeds only on a report that the tab shows the folder (or
/// that the address bar navigated), and the address bar is used only after
/// the last `Navigate2` attempt failed, and only when it is allowed.
pub proof fn lemma_navigation_success_is_reported(step: NavStep, ev: NavEvent, fallback: bool)
    ensures
        nav_transition(step, ev, fallback).1 == NavAction::Succeeded ==> ev == NavEvent::Browsed(true)
            || ev == NavEvent::Navigated(true) || ev == NavEvent::AddressBarNavigated(true),
        nav_transition(step, ev, fallback).1 == NavAction::NavigateAddressBar ==> fallback && (step matches NavStep::Navigate2(n)
            && n + 1 >= NAVIGATE2_ATTEMPTS) && ev == NavEvent::Navigated(false),
{
}


/// A report of success at the step that awaits it ends the navigation as
/// succeeded (the tab shows the folder after `BrowseObject` or a `Navigate2`
/// attempt, or the address bar navigated), and a navigation fails only on a
/// report of failure: the address bar failing, or the last `Navigate2`
/// attempt failing when the address bar is not to be used.
pub proof fn lemma_navigation_outcome_follows_reports(step: NavStep, ev: NavEvent, fallback: bool)
    ensures
        (step == NavStep::BrowseObject && ev == NavEvent::Browsed(true)) || (step is Navigate2 && ev
            == NavEvent::Navigated(true)) || (step == NavStep::AddressBar && ev
            == NavEvent::AddressBarNavigated(true)) ==> nav_transition(step, ev, fallback) == (
            NavStep::Done,
            NavAction::Succeeded,
        ),
        nav_transition(step, ev, fallback).1 == NavAction::Failed ==> (step == NavStep::AddressBar && ev
            == NavEvent::AddressBarNavigated(false)) || (step is Navigate2 && ev == NavEvent::Navigated(false)
            && !fallback),
{
}

} // verus!
