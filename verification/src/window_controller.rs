//! Window decisions: which windows are Explorer windows in normal view, which
//! existing window a new one is merged into, where a window is parked while
//! hidden and where it is put back, the remembered positions of hidden
//! windows, and the tracking of mouse drags.

use vstd::prelude::*;
use std::collections::HashMap;
use crate::text::chars_of;

verus! {

broadcast use vstd::std_specs::hash::group_hash_axioms;

/// The window class of Explorer windows.
pub open spec fn explorer_class() -> Seq<char> {
    "CabinetWClass"@
}

/// ASCII lower-casing of one character; other characters are unchanged.
pub open spec fn ascii_lower(c: char) -> char {
    if 'A' <= c && c <= 'Z' {
        ((c as u32) + 32) as char
    } else {
        c
    }
}

/// Whether two texts are equal when ASCII letters are compared without case
/// (`str::eq_ignore_ascii_case`).
pub open spec fn eq_ignore_ascii_case(a: Seq<char>, b: Seq<char>) -> bool {
    a.len() == b.len() && forall|i: int| 0 <= i < a.len() ==> ascii_lower(#[trigger] a[i]) == ascii_lower(b[i])
}

pub(crate) fn ascii_lower_char(c: char) -> (r: char)
    ensures
        r == ascii_lower(c),
{
    if 'A' <= c && c <= 'Z' {
        let b = (c as u8) + 32;
        b as char
    } else {
        c
    }
}

/// Whether a window class name is Explorer's (`CabinetWClass`, ignoring ASCII case).
pub fn is_explorer_class(class_name: &str) -> (r: bool)
    ensures
        r == eq_ignore_ascii_case(class_name@, explorer_class()),
{
    let a = chars_of(class_name);
    let b = chars_of("CabinetWClass");
    if a.len() != b.len() {
        return false;
    }
    let mut i: usize = 0;
    while i < a.len()
        invariant
            i <= a.len(),
            a.len() == b.len(),
            a@ == class_name@,
            b@ == explorer_class(),
            forall|k: int| 0 <= k < i ==> ascii_lower(#[trigger] a@[k]) == ascii_lower(b@[k]),
        decreases a.len() - i,
    {
        if ascii_lower_char(a[i]) != ascii_lower_char(b[i]) {
            return false;
        }
        i = i + 1;
    }
    true
}

/// A window rectangle in screen coordinates.
#[derive(Clone, Copy, PartialEq, Eq, Structural, Debug)]
pub struct Rect {
    pub left: i32,
    pub top: i32,
    pub right: i32,
    pub bottom: i32,
}

/// Where and how large a window is to be placed.
#[derive(Clone, Copy, PartialEq, Eq, Structural, Debug)]
pub struct Placement {
    pub left: i32,
    pub top: i32,
    pub width: i32,
    pub height: i32,
}

/// What is known of a window when deciding whether it is an Explorer window
/// in normal view.
pub struct WindowFacts {
    pub hwnd: isize,
    /// Its class is Explorer's (and the window exists).
    pub is_explorer: bool,
    pub visible: bool,
    /// Minimised.
    pub iconic: bool,
    /// Cloaked by the window manager; `None` when that could not be read.
    pub cloaked: Option<bool>,
    /// Its rectangle; `None` when it could not be read.
    pub rect: Option<Rect>,
}

/// Whether a window is an Explorer window shown normally: not the ignored
/// window, Explorer, visible, not minimised, not cloaked, with a readable
/// rectangle not parked far off screen.
pub open spec fn normal_visible(f: WindowFacts, ignore: Option<isize>) -> bool {
    &&& f.hwnd != 0
    &&& ignore != Some(f.hwnd)
    &&& f.is_explorer
    &&& f.visible
    &&& !f.iconic
    &&& f.cloaked != Some(true)
    &&& f.rect matches Some(r) && r.left > -30000 && r.top > -30000
}

/// Whether a window is an Explorer window shown normally.
pub fn is_normal_visible_explorer_window(facts: &WindowFacts, ignore_hwnd: Option<isize>) -> (r: bool)
    ensures
        r == normal_visible(*facts, ignore_hwnd),
{
    if facts.hwnd == 0 {
        return false;
    }
    if let Some(ig) = ignore_hwnd {
        if ig == facts.hwnd {
            return false;
        }
    }
    if !facts.is_explorer || !facts.visible || facts.iconic {
        return false;
    }
    if let Some(true) = facts.cloaked {
        return false;
    }
    match facts.rect {
        Some(r) => r.left > -30000 && r.top > -30000,
        None => false,
    }
}

/// The top-level window of `hwnd`, given the ancestor that Windows reports
/// (0 when none): the null handle stays null, and a window without an
/// ancestor is its own top-level window.
pub fn get_root_hwnd(hwnd: isize, ancestor: isize) -> (r: isize)
    ensures
        r == (if hwnd == 0 {
            0
        } else if ancestor != 0 {
            ancestor
        } else {
            hwnd
        }),
{
    if hwnd == 0 {
        return hwnd;
    }
    if ancestor != 0 {
        ancestor
    } else {
        hwnd
    }
}

/// A top-level window met while looking for a merge target, in the order
/// in which Windows lists them.
pub struct TargetCandidate {
    pub hwnd: isize,
    /// Its top-level window.
    pub root: isize,
    pub is_explorer: bool,
    /// An Explorer window shown normally.
    pub normal_visible: bool,
}

/// Whether a candidate can take the new window whose top-level window is
/// `current_root`: an Explorer window other than the new one (and not
/// within it), shown normally.
pub open spec fn is_target(c: TargetCandidate, current_root: isize) -> bool {
    c.is_explorer && c.hwnd != current_root && c.root != current_root && c.normal_visible
}

/// The existing Explorer window that a new window is merged into: the first
/// candidate that can take it.
pub fn find_existing_explorer_window(candidates: &Vec<TargetCandidate>, current_root: isize) -> (r:
    Option<isize>)
    ensures
        r matches Some(h) ==> exists|k: int|
            0 <= k < candidates@.len() && #[trigger] candidates@[k].hwnd == h && is_target(
                candidates@[k],
                current_root,
            ) && forall|j: int| 0 <= j < k ==> !is_target(#[trigger] candidates@[j], current_root),
        r is None ==> forall|k: int|
            0 <= k < candidates@.len() ==> !is_target(#[trigger] candidates@[k], current_root),
{
    let mut i: usize = 0;
    while i < candidates.len()
        invariant
            i <= candidates.len(),
            forall|j: int| 0 <= j < i ==> !is_target(#[trigger] candidates@[j], current_root),
        decreases candidates.len() - i,
    {
        let c = &candidates[i];
        if c.is_explorer && c.hwnd != current_root && c.root != current_root && c.normal_visible {
            return Some(c.hwnd);
        }
        i = i + 1;
    }
    None
}

/// A rectangle that is not parked off screen.
pub open spec fn on_screen(r: Rect) -> bool {
    r.left > -10000 && r.top > -10000
}

/// The width and height of a rectangle fit in `i32`.
pub open spec fn size_fits(r: Rect) -> bool {
    i32::MIN <= r.right - r.left <= i32::MAX && i32::MIN <= r.bottom - r.top <= i32::MAX
}

/// The remembered on-screen positions of hidden windows, one per window; the
/// first position remembered for a window is kept until it is taken.
pub struct RectStore {
    entries: HashMap<isize, Rect>,
}

impl RectStore {
    /// The remembered positions.
    pub closed spec fn view(&self) -> Map<isize, Rect> {
        self.entries@
    }

    /// Finitely many windows have a remembered position.
    pub closed spec fn wf(&self) -> bool {
        self.entries@.dom().finite()
    }

    /// An empty store.
    pub fn new() -> (r: RectStore)
        ensures
            r.wf(),
            r.view() == Map::<isize, Rect>::empty(),
    {
        let r = RectStore { entries: HashMap::new() };
        proof {
            assert(r.view().dom() =~= Set::<isize>::empty());
        }
        r
    }

    /// The position remembered for `hwnd`.
    pub fn get_saved_rect(&self, hwnd_val: isize) -> (r: Option<Rect>)
        requires
            self.wf(),
        ensures
            r == (if self.view().contains_key(hwnd_val) {
                Some(self.view()[hwnd_val])
            } else {
                None
            }),
    {
        match self.entries.get(&hwnd_val) {
            Some(r) => Some(*r),
            None => None,
        }
    }

    /// Remembers `rect` for `hwnd` unless a position is remembered already.
    pub fn save_rect(&mut self, hwnd_val: isize, rect: Rect)
        requires
            old(self).wf(),
        ensures
            final(self).wf(),
            final(self).view() == (if old(self).view().contains_key(hwnd_val) {
                old(self).view()
            } else {
                old(self).view().insert(hwnd_val, rect)
            }),
    {
        if !self.entries.contains_key(&hwnd_val) {
            self.entries.insert(hwnd_val, rect);
        }
    }

    /// Takes the position remembered for `hwnd`, forgetting it.
    pub fn get_and_remove_saved_rect(&mut self, hwnd_val: isize) -> (r: Option<Rect>)
        requires
            old(self).wf(),
        ensures
            final(self).wf(),
            r == (if old(self).view().contains_key(hwnd_val) {
                Some(old(self).view()[hwnd_val])
            } else {
                None
            }),
            final(self).view() == old(self).view().remove(hwnd_val),
    {
        self.entries.remove(&hwnd_val)
    }
}

/// The rectangle that hiding a window remembers and uses: a position saved
/// earlier, else the window's current rectangle, else the empty rectangle.
pub open spec fn hide_rect(saved: Option<Rect>, current: Option<Rect>) -> Rect {
    match saved {
        Some(r) => r,
        None => match current {
            Some(r) => r,
            None => Rect { left: 0, top: 0, right: 0, bottom: 0 },
        },
    }
}

/// Where a hidden window is parked: far off screen, keeping its size, or
/// 800 x 600 when the size is not positive.
pub open spec fn parked_placement(r: Rect) -> Placement {
    Placement {
        left: -32000i32,
        top: -32000i32,
        width: if r.right - r.left > 0 { (r.right - r.left) as i32 } else { 800 },
        height: if r.bottom - r.top > 0 { (r.bottom - r.top) as i32 } else { 600 },
    }
}

/// Decides how a window is hidden, given its current rectangle (`None` when
/// it could not be read): the rectangle to report and the parking place. A
/// current rectangle is remembered when no position was saved and it is on
/// screen.
pub fn hide_window(store: &mut RectStore, hwnd_val: isize, current: Option<Rect>) -> (r: (Rect, Placement))
    requires
        old(store).wf(),
        size_fits(
            hide_rect(
                if old(store).view().contains_key(hwnd_val) {
                    Some(old(store).view()[hwnd_val])
                } else {
                    None
                },
                current,
            ),
        ),
    ensures
        final(store).wf(),
        ({
            let saved = if old(store).view().contains_key(hwnd_val) {
                Some(old(store).view()[hwnd_val])
            } else {
                None
            };
            &&& r.0 == hide_rect(saved, current)
            &&& r.1 == parked_placement(r.0)
            &&& final(store).view() == (if saved is None && (current matches Some(c) && on_screen(c)) {
                old(store).view().insert(hwnd_val, current->0)
            } else {
                old(store).view()
            })
        }),
{
    let saved = store.get_saved_rect(hwnd_val);
    let rect = match saved {
        Some(r) => r,
        None => match current {
            Some(r) => {
                if r.left > -10000 && r.top > -10000 {
                    store.save_rect(hwnd_val, r);
                }
                r
            },
            None => Rect { left: 0, top: 0, right: 0, bottom: 0 },
        },
    };
    let width = rect.right - rect.left;
    let height = rect.bottom - rect.top;
    let placement = Placement {
        left: -32000,
        top: -32000,
        width: if width > 0 {
            width
        } else {
            800
        },
        height: if height > 0 {
            height
        } else {
            600
        },
    };
    (rect, placement)
}

/// The rectangle a window is put back to: the one it had before hiding if
/// on screen, else the remembered one if on screen, else 100,100-900,700.
pub open spec fn restore_rect(original: Option<Rect>, saved: Option<Rect>) -> Rect {
    if original matches Some(r) && on_screen(r) {
        original->0
    } else if saved matches Some(r) && on_screen(r) {
        saved->0
    } else {
        Rect { left: 100, top: 100, right: 900, bottom: 700 }
    }
}

/// Where a window is put back: its rectangle's position (100 for a
/// coordinate parked off screen) and size (800 x 600 for a side of 100 or
/// less).
pub open spec fn restored_placement(r: Rect) -> Placement {
    Placement {
        left: if r.left > -10000 { r.left } else { 100 },
        top: if r.top > -10000 { r.top } else { 100 },
        width: if r.right - r.left > 100 { (r.right - r.left) as i32 } else { 800 },
        height: if r.bottom - r.top > 100 { (r.bottom - r.top) as i32 } else { 600 },
    }
}

/// Decides how a hidden window is put back, given whether it still exists
/// and the rectangle it had before hiding: the remembered position is
/// forgotten in every case; a window that no longer exists is not placed.
pub fn restore_window(store: &mut RectStore, hwnd_val: isize, exists: bool, original_rect: Option<Rect>) -> (r:
    Option<Placement>)
    requires
        old(store).wf(),
        exists ==> size_fits(
            restore_rect(
                original_rect,
                if old(store).view().contains_key(hwnd_val) {
                    Some(old(store).view()[hwnd_val])
                } else {
                    None
                },
            ),
        ),
    ensures
        final(store).wf(),
        final(store).view() == old(store).view().remove(hwnd_val),
        !exists ==> r is None,
        exists ==> r == Some(
            restored_placement(
                restore_rect(
                    original_rect,
                    if old(store).view().contains_key(hwnd_val) {
                        Some(old(store).view()[hwnd_val])
                    } else {
                        None
                    },
                ),
            ),
        ),
{
    if !exists {
        store.get_and_remove_saved_rect(hwnd_val);
        return None;
    }
    let saved = store.get_and_remove_saved_rect(hwnd_val);
    let rect = match original_rect {
        Some(r) if r.left > -10000 && r.top > -10000 => r,
        _ => match saved {
            Some(r) if r.left > -10000 && r.top > -10000 => r,
            _ => Rect { left: 100, top: 100, right: 900, bottom: 700 },
        },
    };
    let w = rect.right - rect.left;
    let h = rect.bottom - rect.top;
    Some(
        Placement {
            left: if rect.left > -10000 {
                rect.left
            } else {
                100
            },
            top: if rect.top > -10000 {
                rect.top
            } else {
                100
            },
            width: if w > 100 {
                w
            } else {
                800
            },
            height: if h > 100 {
                h
            } else {
                600
            },
        },
    )
}

/// A pointer move larger than this many pixels (on either axis) with the
/// left button down is a drag.
pub const DRAG_DISTANCE_PX: i32 = 15;

/// Merges are bypassed while a drag is under way and for this long after.
pub const DRAG_BYPASS_MS: u64 = 1200;

/// The tracked state of the left mouse button.
#[derive(Clone, Copy, PartialEq, Eq, Structural, Debug)]
pub struct MouseDragState {
    /// The button was down at the last sample.
    pub is_down: bool,
    /// Where it went down.
    pub down_x: i32,
    pub down_y: i32,
    /// The pointer moved far enough while the button was down.
    pub is_dragging: bool,
    /// The last time (ms) a drag was seen moving or ended.
    pub last_drag_time: Option<u64>,
}

/// The state before any sample.
pub open spec fn initial_drag_state() -> MouseDragState {
    MouseDragState { is_down: false, down_x: 0, down_y: 0, is_dragging: false, last_drag_time: None }
}

/// Absolute difference.
pub open spec fn abs_diff(a: int, b: int) -> int {
    if a >= b {
        a - b
    } else {
        b - a
    }
}

/// The state after one sample of the button (`down`) and pointer position at
/// time `now`: a press records where it happened; a move of more than
/// `DRAG_DISTANCE_PX` while down is a drag and is time-stamped; releasing
/// after a drag time-stamps it again; releasing clears the press.
pub open spec fn drag_update(s: MouseDragState, down: bool, x: i32, y: i32, now: u64) -> MouseDragState {
    if down {
        if !s.is_down {
            MouseDragState { is_down: true, down_x: x, down_y: y, is_dragging: false, ..s }
        } else if abs_diff(x as int, s.down_x as int) > DRAG_DISTANCE_PX || abs_diff(
            y as int,
            s.down_y as int,
        ) > DRAG_DISTANCE_PX {
            MouseDragState { is_dragging: true, last_drag_time: Some(now), ..s }
        } else {
            s
        }
    } else if s.is_down {
        MouseDragState {
            is_down: false,
            is_dragging: false,
            last_drag_time: if s.is_dragging {
                Some(now)
            } else {
                s.last_drag_time
            },
            ..s
        }
    } else {
        s
    }
}

/// Whether a drag is under way, or the last one was seen less than
/// `threshold` ms before `now`.
pub open spec fn drag_active_or_recent(s: MouseDragState, now: u64, threshold: u64) -> bool {
    (s.is_down && s.is_dragging) || (s.last_drag_time matches Some(t) && (if now >= t {
        now - t
    } else {
        0
    }) < threshold)
}

/// A coordinate difference that can be taken in `i32` and then made
/// absolute without overflow.
pub open spec fn diff_fits(a: i32, b: i32) -> bool {
    i32::MIN < a - b <= i32::MAX
}

impl MouseDragState {
    /// The state before any sample.
    pub fn new() -> (r: MouseDragState)
        ensures
            r == initial_drag_state(),
    {
        MouseDragState { is_down: false, down_x: 0, down_y: 0, is_dragging: false, last_drag_time: None }
    }

    /// Takes one sample of the left button and pointer position.
    pub fn update(&mut self, down: bool, x: i32, y: i32, now_ms: u64)
        requires
            down && old(self).is_down ==> diff_fits(x, old(self).down_x) && diff_fits(y, old(self).down_y),
        ensures
            *final(self) == drag_update(*old(self), down, x, y, now_ms),
    {
        if down {
            if !self.is_down {
                self.is_down = true;
                self.down_x = x;
                self.down_y = y;
                self.is_dragging = false;
            } else {
                let dx = x - self.down_x;
                let dy = y - self.down_y;
                let adx = if dx < 0 {
                    -dx
                } else {
                    dx
                };
                let ady = if dy < 0 {
                    -dy
                } else {
                    dy
                };
                if adx > DRAG_DISTANCE_PX || ady > DRAG_DISTANCE_PX {
                    self.is_dragging = true;
                    self.last_drag_time = Some(now_ms);
                }
            }
        } else {
            if self.is_down {
                if self.is_dragging {
                    self.last_drag_time = Some(now_ms);
                }
                self.is_down = false;
                self.is_dragging = false;
            }
        }
    }

    /// Whether a drag is under way or was seen less than `threshold_ms` ago.
    pub fn is_drag_and_drop_active_or_recent(&self, now_ms: u64, threshold_ms: u64) -> (r: bool)
        ensures
            r == drag_active_or_recent(*self, now_ms, threshold_ms),
    {
        if self.is_down && self.is_dragging {
            return true;
        }
        if let Some(last) = self.last_drag_time {
            let elapsed = if now_ms >= last {
                now_ms - last
            } else {
                0
            };
            if elapsed < threshold_ms {
                return true;
            }
        }
        false
    }
}

/// Whether a key state from `GetAsyncKeyState` says the key is down (its
/// most significant bit is set).
pub fn key_state_is_down(state: i16) -> (r: bool)
    ensures
        r == ((state as u16) & 0x8000u16 != 0),
        r == (state < 0),
{
    let u = state as u16;
    assert((u & 0x8000u16 != 0) == (state < 0)) by (bit_vector)
        requires
            u == state as u16,
    ;
    (u & 0x8000u16) != 0
}

/// A drag counts as recent for the whole bypass time after it is released.
pub proof fn lemma_released_drag_is_recent(s: MouseDragState, x: i32, y: i32, t: u64, later: u64)
    requires
        s.is_down && s.is_dragging,
        t <= later < t + DRAG_BYPASS_MS,
    ensures
        drag_active_or_recent(drag_update(s, false, x, y, t), later, DRAG_BYPASS_MS),
{
}

/// A click without movement never counts as a drag.
pub proof fn lemma_click_is_not_drag(x: i32, y: i32, t1: u64, t2: u64, now: u64)
    ensures
        !drag_active_or_recent(
            drag_update(drag_update(initial_drag_state(), true, x, y, t1), false, x, y, t2),
            now,
            DRAG_BYPASS_MS,
        ),
{
}

/// A position once remembered for a window is kept until it is taken.
pub proof fn lemma_first_saved_rect_kept(m: Map<isize, Rect>, h: isize, r1: Rect, r2: Rect)
    ensures
        ({
            let m1 = if m.contains_key(h) {
                m
            } else {
                m.insert(h, r1)
            };
            let m2 = if m1.contains_key(h) {
                m1
            } else {
                m1.insert(h, r2)
            };
            m2 == m1 && m2.contains_key(h)
        }),
{
}

/// A window hidden and then put back ends with no remembered position, and
/// is put back on screen where it was when its rectangle was on screen.
pub proof fn lemma_hide_then_restore(r: Rect)
    requires
        on_screen(r),
        size_fits(r),
        r.right - r.left > 100,
        r.bottom - r.top > 100,
    ensures
        restored_placement(restore_rect(Some(r), None)) == (Placement {
            left: r.left,
            top: r.top,
            width: (r.right - r.left) as i32,
            height: (r.bottom - r.top) as i32,
        }),
        restored_placement(restore_rect(None, Some(r))) == restored_placement(restore_rect(Some(r), None)),
{
}


/// The state with the two axes of the press point exchanged.
pub open spec fn swap_axes(s: MouseDragState) -> MouseDragState {
    MouseDragState { down_x: s.down_y, down_y: s.down_x, ..s }
}

/// While the button is held, a move of more than `DRAG_DISTANCE_PX` from the
/// press point along either axis (left, right, up or down) is a drag, seen
/// at once and time-stamped now, so merging is bypassed; a move of at most
/// that distance along both axes changes nothing.
pub proof fn lemma_held_move_is_drag(s: MouseDragState, x: i32, y: i32, now: u64)
    requires
        s.is_down,
    ensures
        x - s.down_x > 15 || s.down_x - x > 15 || y - s.down_y > 15 || s.down_y - y > 15 ==> {
            let r = drag_update(s, true, x, y, now);
            &&& r.is_down && r.is_dragging
            &&& r.last_drag_time == Some(now)
            &&& drag_active_or_recent(r, now, DRAG_BYPASS_MS)
        },
        -15 <= x - s.down_x <= 15 && -15 <= y - s.down_y <= 15 ==> drag_update(s, true, x, y, now) == s,
{
}

/// Drag tracking treats the two axes alike: exchanging the x and y
/// coordinates of the press point and of the sample exchanges them in the
/// result and changes nothing else.
pub proof fn lemma_drag_axes_symmetric(s: MouseDragState, down: bool, x: i32, y: i32, now: u64)
    ensures
        drag_update(swap_axes(s), down, y, x, now) == swap_axes(drag_update(s, down, x, y, now)),
{
}

} // verus!
