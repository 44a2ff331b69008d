//! Which window-creation notifications are passed on to the tab merger:
//! the filters on WinEvent and shell-hook messages, and the debounce that
//! drops a second notification for the same window within 300 ms.

use vstd::prelude::*;

verus! {

/// Notifications for the same window closer together than this are merged.
pub const DEBOUNCE_MS: u64 = 300;

/// The shell-hook code of a newly created top-level window.
pub const HSHELL_WINDOWCREATED: u32 = 1;

/// The debounce memory: the last window passed on and when (in ms).
pub struct EventDebouncer {
    pub last: Option<(isize, u64)>,
}

/// Milliseconds from `earlier` to `now`, zero if `now` is not later
/// (as `Instant::duration_since` gives it).
pub open spec fn elapsed_ms(now: u64, earlier: u64) -> int {
    if now >= earlier {
        now - earlier
    } else {
        0
    }
}

/// One debounce step: whether a notification for `hwnd` at `now` is passed
/// on, and the memory afterwards. It is dropped only when the previous one
/// passed on was for the same window less than `DEBOUNCE_MS` earlier; a
/// dropped notification leaves the memory as it was.
pub open spec fn debounce(last: Option<(isize, u64)>, hwnd: isize, now: u64) -> (bool, Option<(isize, u64)>) {
    match last {
        Some((h, t)) if h == hwnd && elapsed_ms(now, t) < DEBOUNCE_MS => (false, last),
        _ => (true, Some((hwnd, now))),
    }
}

impl EventDebouncer {
    /// A debouncer that has passed nothing on yet.
    pub fn new() -> (r: EventDebouncer)
        ensures
            r.last is None,
    {
        EventDebouncer { last: None }
    }
}

/// Whether a notification for `hwnd_val` arriving at `now_ms` is passed on;
/// records it when it is.
pub fn should_send_event(state: &mut EventDebouncer, hwnd_val: isize, now_ms: u64) -> (r: bool)
    ensures
        (r, final(state).last) == debounce(old(state).last, hwnd_val, now_ms),
{
    if let Some((last_hwnd, last_time)) = state.last {
        let elapsed = if now_ms >= last_time {
            now_ms - last_time
        } else {
            0
        };
        if last_hwnd == hwnd_val && elapsed < DEBOUNCE_MS {
            return false;
        }
    }
    state.last = Some((hwnd_val, now_ms));
    true
}

/// Whether a WinEvent notification is about a window object itself (not a
/// child element) and names a window.
pub fn is_window_object_event(id_object: i32, id_child: i32, hwnd: isize) -> (r: bool)
    ensures
        r == (id_object == 0 && id_child == 0 && hwnd != 0),
{
    id_object == 0 && id_child == 0 && hwnd != 0
}

/// How the shell-hook window treats a message.
#[derive(PartialEq, Eq, Debug, Clone, Copy)]
pub enum ShellMessageKind {
    /// Not a shell-hook message: default processing.
    Other,
    /// A shell-hook message about something else: consumed.
    ShellEvent,
    /// A shell-hook message announcing a new top-level window.
    WindowCreated,
}

/// The kind of a message received by the shell-hook window, given the
/// registered shell-hook message number (0 when registration failed). The
/// shell code is the low 32 bits of `wparam`.
pub fn classify_shell_message(shell_msg: u32, msg: u32, wparam: usize) -> (r: ShellMessageKind)
    ensures
        r == (if shell_msg != 0 && msg == shell_msg {
            if wparam as u32 == HSHELL_WINDOWCREATED {
                ShellMessageKind::WindowCreated
            } else {
                ShellMessageKind::ShellEvent
            }
        } else {
            ShellMessageKind::Other
        }),
{
    if shell_msg != 0 && msg == shell_msg {
        let code = wparam as u32;
        if code == HSHELL_WINDOWCREATED {
            ShellMessageKind::WindowCreated
        } else {
            ShellMessageKind::ShellEvent
        }
    } else {
        ShellMessageKind::Other
    }
}

/// A repeated notification for the window just passed on is dropped while
/// less than `DEBOUNCE_MS` have gone by.
pub proof fn lemma_repeat_within_window_dropped(
    last: Option<(isize, u64)>,
    hwnd: isize,
    t1: u64,
    t2: u64,
)
    requires
        debounce(last, hwnd, t1).0,
        t1 <= t2 < t1 + DEBOUNCE_MS,
    ensures
        !debounce(debounce(last, hwnd, t1).1, hwnd, t2).0,
{
}

/// A notification for a window other than the last one passed on is always
/// passed on.
pub proof fn lemma_other_window_passes(last: Option<(isize, u64)>, hwnd: isize, now: u64)
    requires
        !(last matches Some((h, _t)) && h == hwnd),
    ensures
        debounce(last, hwnd, now) == (true, Some((hwnd, now))),
{
}

/// Once `DEBOUNCE_MS` have gone by since the last notification passed on, the
/// next one is passed on whatever window it is for.
pub proof fn lemma_passes_after_window(last: Option<(isize, u64)>, hwnd: isize, now: u64)
    requires
        last matches Some((_h, t)) && now >= t + DEBOUNCE_MS,
    ensures
        debounce(last, hwnd, now).0,
{
}

/// Two notifications for the same window, with time not running backwards,
/// are both passed on only if they are at least `DEBOUNCE_MS` apart.
pub proof fn lemma_passed_repeats_are_spaced(
    last: Option<(isize, u64)>,
    hwnd: isize,
    t1: u64,
    t2: u64,
)
    requires
        t1 <= t2,
        debounce(last, hwnd, t1).0,
        debounce(debounce(last, hwnd, t1).1, hwnd, t2).0,
    ensures
        t2 - t1 >= DEBOUNCE_MS,
{
}

} // verus!
