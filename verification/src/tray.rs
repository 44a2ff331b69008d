//! The tray icon's decisions: which notifications open the menu, the debounce
//! that keeps the menu from opening twice, and what each menu command does.

use vstd::prelude::*;
use crate::input::{utf16, utf16_units};
use crate::config::{
    Config, ConfigAction, toggle_auto_start, toggle_log_enabled, toggle_unify_view_mode,
};

verus! {

/// `WM_USER`, the first private window message.
pub const WM_USER: u32 = 0x0400;
/// The message the tray icon sends to its window.
pub const WM_TRAYICON: u32 = 0x0401;
/// `WM_CONTEXTMENU`.
pub const WM_CONTEXTMENU: u32 = 0x007B;
/// `WM_LBUTTONUP`.
pub const WM_LBUTTONUP: u32 = 0x0202;
/// `WM_RBUTTONUP`.
pub const WM_RBUTTONUP: u32 = 0x0205;
/// `NIN_SELECT`: the icon was selected with the mouse.
pub const NIN_SELECT: u32 = 0x0400;
/// `NIN_KEYSELECT`: the icon was selected with the keyboard.
pub const NIN_KEYSELECT: u32 = 0x0401;

/// Menu command: exit.
pub const ID_TRAY_EXIT: usize = 1001;
/// Menu command: about box.
pub const ID_TRAY_ABOUT: usize = 1002;
/// Menu command: open the log file.
pub const ID_TRAY_LOG: usize = 1003;
/// Menu command: toggle view-mode unification.
pub const ID_TRAY_UNIFY_VIEW: usize = 1004;
/// Menu command: toggle auto-start.
pub const ID_TRAY_AUTO_START: usize = 1005;
/// Menu command: toggle logging.
pub const ID_TRAY_ENABLE_LOG: usize = 1006;

/// The menu does not open again within this many milliseconds.
pub const MENU_DEBOUNCE_MS: u64 = 300;

/// How often adding the tray icon is tried.
pub const TRAY_ADD_ATTEMPTS: u32 = 3;

/// The notification carried by a tray message: the low 16 bits of `lparam`.
pub fn tray_notification(lparam: isize) -> (r: u32)
    ensures
        r == (lparam as u32) & 0xFFFFu32,
{
    (lparam as u32) & 0xFFFF
}

/// The notifications that open the menu.
pub open spec fn opens_menu(msg: u32) -> bool {
    msg == WM_RBUTTONUP || msg == WM_CONTEXTMENU || msg == WM_LBUTTONUP || msg == NIN_SELECT
        || msg == NIN_KEYSELECT
}

/// Whether a tray notification opens the menu.
pub fn should_show_menu(msg: u32) -> (r: bool)
    ensures
        r == opens_menu(msg),
{
    msg == WM_RBUTTONUP || msg == WM_CONTEXTMENU || msg == WM_LBUTTONUP || msg == NIN_SELECT
        || msg == NIN_KEYSELECT
}

/// Whether the menu opens at `now` given when it last opened, and when it
/// has last opened afterwards.
pub open spec fn menu_debounce(last: Option<u64>, now: u64) -> (bool, Option<u64>) {
    match last {
        Some(t) if (if now >= t {
            now - t
        } else {
            0
        }) < MENU_DEBOUNCE_MS => (false, last),
        _ => (true, Some(now)),
    }
}

/// Whether the menu may open at `now_ms`; records the opening.
pub fn menu_may_open(last_menu_time: &mut Option<u64>, now_ms: u64) -> (r: bool)
    ensures
        (r, *final(last_menu_time)) == menu_debounce(*old(last_menu_time), now_ms),
{
    if let Some(t) = *last_menu_time {
        let elapsed = if now_ms >= t {
            now_ms - t
        } else {
            0
        };
        if elapsed < MENU_DEBOUNCE_MS {
            return false;
        }
    }
    *last_menu_time = Some(now_ms);
    true
}

/// A menu command.
#[derive(Clone, Copy, PartialEq, Eq, Structural, Debug)]
pub enum MenuCommand {
    ToggleUnifyView,
    ToggleAutoStart,
    ToggleLog,
    Exit,
    About,
    OpenLog,
}

/// The command with menu identifier `id`.
pub open spec fn command_of(id: usize) -> Option<MenuCommand> {
    if id == ID_TRAY_UNIFY_VIEW {
        Some(MenuCommand::ToggleUnifyView)
    } else if id == ID_TRAY_AUTO_START {
        Some(MenuCommand::ToggleAutoStart)
    } else if id == ID_TRAY_ENABLE_LOG {
        Some(MenuCommand::ToggleLog)
    } else if id == ID_TRAY_EXIT {
        Some(MenuCommand::Exit)
    } else if id == ID_TRAY_ABOUT {
        Some(MenuCommand::About)
    } else if id == ID_TRAY_LOG {
        Some(MenuCommand::OpenLog)
    } else {
        None
    }
}

/// The command named by a menu message: its identifier is the low 16 bits
/// of `wparam`.
pub fn menu_command_from(wparam: usize) -> (r: Option<MenuCommand>)
    ensures
        r == command_of(wparam & 0xFFFFusize),
{
    let id = wparam & 0xFFFF;
    if id == ID_TRAY_UNIFY_VIEW {
        Some(MenuCommand::ToggleUnifyView)
    } else if id == ID_TRAY_AUTO_START {
        Some(MenuCommand::ToggleAutoStart)
    } else if id == ID_TRAY_ENABLE_LOG {
        Some(MenuCommand::ToggleLog)
    } else if id == ID_TRAY_EXIT {
        Some(MenuCommand::Exit)
    } else if id == ID_TRAY_ABOUT {
        Some(MenuCommand::About)
    } else if id == ID_TRAY_LOG {
        Some(MenuCommand::OpenLog)
    } else {
        None
    }
}

/// What a menu command leads to.
pub enum MenuOutcome {
    /// A setting was flipped to `value`; the actions follow from the change.
    SettingChanged { value: bool, actions: Vec<ConfigAction> },
    /// Leave the message loop.
    Exit,
    /// Show the about box.
    ShowAbout,
    /// Create the log file if missing and open it.
    OpenLog,
    /// Not a menu command.
    Nothing,
}

/// Carries out a menu message on the settings: the three toggles flip their
/// setting; the other commands are handed back to the caller.
pub fn handle_menu_command(config: &mut Config, wparam: usize) -> (r: MenuOutcome)
    ensures
        command_of(wparam & 0xFFFFusize) == Some(MenuCommand::ToggleUnifyView) ==> *final(config)
            == (Config { unify_view_mode: !old(config).unify_view_mode, ..*old(config) }) && (r matches MenuOutcome::SettingChanged {
            value,
            actions,
        } && value == !old(config).unify_view_mode && actions@ == seq![ConfigAction::SaveConfig]),
        command_of(wparam & 0xFFFFusize) == Some(MenuCommand::ToggleAutoStart) ==> *final(config)
            == (Config { auto_start: !old(config).auto_start, ..*old(config) }) && (r matches MenuOutcome::SettingChanged {
            value,
            actions,
        } && value == !old(config).auto_start && actions@ == seq![
            ConfigAction::WriteAutoStart(value),
            ConfigAction::SaveConfig,
        ]),
        command_of(wparam & 0xFFFFusize) == Some(MenuCommand::ToggleLog) ==> *final(config)
            == (Config { enable_log: !old(config).enable_log, ..*old(config) }) && (r matches MenuOutcome::SettingChanged {
            value,
            actions,
        } && value == !old(config).enable_log && actions@ == (if value {
            seq![ConfigAction::InitLogger, ConfigAction::SaveConfig]
        } else {
            seq![ConfigAction::SaveConfig]
        })),
        command_of(wparam & 0xFFFFusize) == Some(MenuCommand::Exit) ==> *final(config) == *old(
            config,
        ) && r is Exit,
        command_of(wparam & 0xFFFFusize) == Some(MenuCommand::About) ==> *final(config) == *old(
            config,
        ) && r is ShowAbout,
        command_of(wparam & 0xFFFFusize) == Some(MenuCommand::OpenLog) ==> *final(config) == *old(
            config,
        ) && r is OpenLog,
        command_of(wparam & 0xFFFFusize) is None ==> *final(config) == *old(config) && r is Nothing,
{
    match menu_command_from(wparam) {
        Some(MenuCommand::ToggleUnifyView) => {
            let (value, actions) = toggle_unify_view_mode(config);
            MenuOutcome::SettingChanged { value, actions }
        },
        Some(MenuCommand::ToggleAutoStart) => {
            let (value, actions) = toggle_auto_start(config);
            MenuOutcome::SettingChanged { value, actions }
        },
        Some(MenuCommand::ToggleLog) => {
            let (value, actions) = toggle_log_enabled(config);
            MenuOutcome::SettingChanged { value, actions }
        },
        Some(MenuCommand::Exit) => MenuOutcome::Exit,
        Some(MenuCommand::About) => MenuOutcome::ShowAbout,
        Some(MenuCommand::OpenLog) => MenuOutcome::OpenLog,
        None => MenuOutcome::Nothing,
    }
}

/// The pause before trying again to add the tray icon after attempt
/// `attempt` (counted from 1) failed: 150 ms times the attempt, or none after
/// the last attempt.
pub fn tray_retry_delay_ms(attempt: u32) -> (r: Option<u64>)
    ensures
        attempt < TRAY_ADD_ATTEMPTS ==> r == Some((150 * attempt) as u64),
        attempt >= TRAY_ADD_ATTEMPTS ==> r is None,
{
    if attempt < TRAY_ADD_ATTEMPTS {
        Some(150 * attempt as u64)
    } else {
        None
    }
}

/// The window message of a menu command.
pub const WM_COMMAND: u32 = 0x0111;

/// Where the tray window sends a message.
#[derive(Clone, Copy, PartialEq, Eq, Structural, Debug)]
pub enum TrayWindowRoute {
    /// A notification from the tray icon.
    TrayIcon,
    /// A menu command.
    MenuCommand,
    /// Anything else: default processing.
    Default,
}

/// Where the tray window sends message `msg`.
pub fn route_tray_window_message(msg: u32) -> (r: TrayWindowRoute)
    ensures
        r == (if msg == WM_TRAYICON {
            TrayWindowRoute::TrayIcon
        } else if msg == WM_COMMAND {
            TrayWindowRoute::MenuCommand
        } else {
            TrayWindowRoute::Default
        }),
{
    if msg == WM_TRAYICON {
        TrayWindowRoute::TrayIcon
    } else if msg == WM_COMMAND {
        TrayWindowRoute::MenuCommand
    } else {
        TrayWindowRoute::Default
    }
}

/// One line of the tray menu.
pub enum MenuEntry {
    /// A command, with its label and, for a setting, whether it is ticked.
    Item { id: usize, label: &'static str, checked: Option<bool> },
    /// A separator line.
    Separator,
}

/// The tray menu for the given settings, top to bottom: the three settings
/// (view mode, auto-start; after a separator, logging) with their ticks, the
/// log file, the about box and exit, separated as shown.
pub fn tray_menu_entries(config: &Config) -> (r: Vec<MenuEntry>)
    ensures
        r@.len() == 9,
        r@[0] matches MenuEntry::Item { id, checked, .. } && id == ID_TRAY_UNIFY_VIEW && checked
            == Some(config.unify_view_mode),
        r@[1] matches MenuEntry::Item { id, checked, .. } && id == ID_TRAY_AUTO_START && checked
            == Some(config.auto_start),
        r@[2] is Separator,
        r@[3] matches MenuEntry::Item { id, checked, .. } && id == ID_TRAY_ENABLE_LOG && checked
            == Some(config.enable_log),
        r@[4] matches MenuEntry::Item { id, checked, .. } && id == ID_TRAY_LOG && checked is None,
        r@[5] is Separator,
        r@[6] matches MenuEntry::Item { id, checked, .. } && id == ID_TRAY_ABOUT && checked is None,
        r@[7] is Separator,
        r@[8] matches MenuEntry::Item { id, checked, .. } && id == ID_TRAY_EXIT && checked is None,
{
    let mut v = Vec::new();
    v.push(
        MenuEntry::Item {
            id: ID_TRAY_UNIFY_VIEW,
            label: "表示形式を親ウィンドウに統一",
            checked: Some(config.unify_view_mode),
        },
    );
    v.push(
        MenuEntry::Item {
            id: ID_TRAY_AUTO_START,
            label: "Windows 起動時に自動起動",
            checked: Some(config.auto_start),
        },
    );
    v.push(MenuEntry::Separator);
    v.push(
        MenuEntry::Item {
            id: ID_TRAY_ENABLE_LOG,
            label: "ログ出力を有効化",
            checked: Some(config.enable_log),
        },
    );
    v.push(MenuEntry::Item { id: ID_TRAY_LOG, label: "ログファイルを開く", checked: None });
    v.push(MenuEntry::Separator);
    v.push(MenuEntry::Item { id: ID_TRAY_ABOUT, label: "バージョン情報", checked: None });
    v.push(MenuEntry::Separator);
    v.push(MenuEntry::Item { id: ID_TRAY_EXIT, label: "終了", checked: None });
    v
}

/// The tooltip buffer holds this many UTF-16 units.
pub const TIP_CAPACITY: usize = 128;

/// The UTF-16 units written into the tooltip buffer for `text`: the text
/// with a terminating 0, cut to the first 127 units.
pub fn tray_tip_units(text: &str) -> (r: Vec<u16>)
    ensures
        r@ == (utf16(text@) + seq![0u16]).take(
            if (utf16(text@) + seq![0u16]).len() < 127 {
                (utf16(text@) + seq![0u16]).len() as int
            } else {
                127
            },
        ),
{
    let mut units = utf16_units(text);
    units.push(0);
    let n = if units.len() < 127 {
        units.len()
    } else {
        127
    };
    let mut r: Vec<u16> = Vec::new();
    let mut i: usize = 0;
    while i < n
        invariant
            i <= n,
            n <= units.len(),
            r@ == units@.take(i as int),
        decreases n - i,
    {
        r.push(units[i]);
        proof {
            assert(units@.take(i + 1) =~= units@.take(i as int).push(units@[i as int]));
        }
        i = i + 1;
    }
    r
}

/// Two menu openings less than `MENU_DEBOUNCE_MS` apart: the second is
/// refused.
pub proof fn lemma_menu_not_reopened_quickly(last: Option<u64>, t1: u64, t2: u64)
    requires
        menu_debounce(last, t1).0,
        t1 <= t2 < t1 + MENU_DEBOUNCE_MS,
    ensures
        !menu_debounce(menu_debounce(last, t1).1, t2).0,
{
}


/// Each menu command is named by exactly one identifier, the one of the menu
/// item that shows it: the three settings, the log file, the about box and
/// exit; every other identifier names no command.
pub proof fn lemma_menu_identifiers_name_their_commands(id: usize)
    ensures
        command_of(id) == Some(MenuCommand::ToggleUnifyView) <==> id == ID_TRAY_UNIFY_VIEW,
        command_of(id) == Some(MenuCommand::ToggleAutoStart) <==> id == ID_TRAY_AUTO_START,
        command_of(id) == Some(MenuCommand::ToggleLog) <==> id == ID_TRAY_ENABLE_LOG,
        command_of(id) == Some(MenuCommand::OpenLog) <==> id == ID_TRAY_LOG,
        command_of(id) == Some(MenuCommand::About) <==> id == ID_TRAY_ABOUT,
        command_of(id) == Some(MenuCommand::Exit) <==> id == ID_TRAY_EXIT,
        command_of(id) is None <==> id != ID_TRAY_UNIFY_VIEW && id != ID_TRAY_AUTO_START && id
            != ID_TRAY_ENABLE_LOG && id != ID_TRAY_LOG && id != ID_TRAY_ABOUT && id != ID_TRAY_EXIT,
{
}

/// Different identifiers never name the same command.
pub proof fn lemma_menu_commands_distinct(id1: usize, id2: usize)
    ensures
        command_of(id1) is Some && command_of(id1) == command_of(id2) ==> id1 == id2,
{
}

} // verus!
