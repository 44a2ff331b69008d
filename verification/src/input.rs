//! Keyboard input sequences sent to Explorer: Ctrl+T to open a new tab when
//! its button cannot be pressed, Ctrl+9 to select the last tab,
//! Alt+D / typed path / Enter to navigate through the address bar, and the
//! releases of modifier keys still held down.

use vstd::prelude::*;
use crate::text::chars_of;

verus! {

/// Virtual-key codes used here.
pub const VK_RETURN: u16 = 0x0D;
pub const VK_SHIFT: u16 = 0x10;
pub const VK_CONTROL: u16 = 0x11;
pub const VK_MENU: u16 = 0x12;
pub const VK_9: u16 = 0x39;
pub const VK_D: u16 = 0x44;
pub const VK_T: u16 = 0x54;
pub const VK_LWIN: u16 = 0x5B;
pub const VK_RWIN: u16 = 0x5C;
pub const VK_LSHIFT: u16 = 0xA0;
pub const VK_RSHIFT: u16 = 0xA1;
pub const VK_LCONTROL: u16 = 0xA2;
pub const VK_RCONTROL: u16 = 0xA3;

/// One keyboard input event.
#[derive(Clone, Copy, PartialEq, Eq, Structural, Debug)]
pub struct KeyInput {
    /// The virtual key (0 for a Unicode character event).
    pub vk: u16,
    /// The UTF-16 unit of a Unicode character event (0 otherwise).
    pub scan: u16,
    /// A Unicode character event.
    pub unicode: bool,
    /// A key release (otherwise a press).
    pub key_up: bool,
}

/// Pressing a virtual key.
pub open spec fn press(vk: u16) -> KeyInput {
    KeyInput { vk, scan: 0, unicode: false, key_up: false }
}

/// Releasing a virtual key.
pub open spec fn release(vk: u16) -> KeyInput {
    KeyInput { vk, scan: 0, unicode: false, key_up: true }
}

/// The UTF-16 units of one character.
pub open spec fn utf16_of_char(c: char) -> Seq<u16> {
    let u = c as u32;
    if u < 0x10000 {
        seq![u as u16]
    } else {
        seq![(0xD800 + (u - 0x10000) / 0x400) as u16, (0xDC00 + (u - 0x10000) % 0x400) as u16]
    }
}

/// The UTF-16 encoding of a text (`str::encode_utf16`).
pub open spec fn utf16(s: Seq<char>) -> Seq<u16>
    decreases s.len(),
{
    if s.len() == 0 {
        Seq::empty()
    } else {
        utf16(s.drop_last()) + utf16_of_char(s.last())
    }
}

/// The press and release of a Unicode character event for each unit.
pub open spec fn typed_units(units: Seq<u16>) -> Seq<KeyInput>
    decreases units.len(),
{
    if units.len() == 0 {
        Seq::empty()
    } else {
        typed_units(units.drop_last()) + seq![
            KeyInput { vk: 0, scan: units.last(), unicode: true, key_up: false },
            KeyInput { vk: 0, scan: units.last(), unicode: true, key_up: true },
        ]
    }
}

fn push_key(v: &mut Vec<KeyInput>, vk: u16, key_up: bool)
    ensures
        final(v)@ == old(v)@.push(KeyInput { vk, scan: 0, unicode: false, key_up }),
{
    v.push(KeyInput { vk, scan: 0, unicode: false, key_up });
}

/// The UTF-16 units of a text.
pub fn utf16_units(s: &str) -> (r: Vec<u16>)
    ensures
        r@ == utf16(s@),
{
    let cs = chars_of(s);
    let mut r: Vec<u16> = Vec::new();
    let mut i: usize = 0;
    while i < cs.len()
        invariant
            i <= cs.len(),
            cs@ == s@,
            r@ == utf16(cs@.subrange(0, i as int)),
        decreases cs.len() - i,
    {
        let u = cs[i] as u32;
        proof {
            assert(cs@.subrange(0, i + 1).drop_last() =~= cs@.subrange(0, i as int));
            vstd::utf8::char_is_scalar(cs@[i as int]);
        }
        if u < 0x10000 {
            r.push(u as u16);
        } else {
            let v = u - 0x10000;
            r.push((0xD800 + v / 0x400) as u16);
            r.push((0xDC00 + v % 0x400) as u16);
        }
        proof {
            assert(r@ =~= utf16(cs@.subrange(0, i as int)) + utf16_of_char(cs@[i as int]));
        }
        i = i + 1;
    }
    proof {
        assert(cs@.subrange(0, cs.len() as int) =~= cs@);
    }
    r
}

/// Ctrl+T: opens a new tab.
pub fn new_tab_shortcut() -> (r: Vec<KeyInput>)
    ensures
        r@ == seq![press(VK_CONTROL), press(VK_T), release(VK_T), release(VK_CONTROL)],
{
    let mut v = Vec::new();
    push_key(&mut v, VK_CONTROL, false);
    push_key(&mut v, VK_T, false);
    push_key(&mut v, VK_T, true);
    push_key(&mut v, VK_CONTROL, true);
    v
}

/// Ctrl+9: selects the last tab.
pub fn last_tab_shortcut() -> (r: Vec<KeyInput>)
    ensures
        r@ == seq![press(VK_CONTROL), press(VK_9), release(VK_9), release(VK_CONTROL)],
{
    let mut v = Vec::new();
    push_key(&mut v, VK_CONTROL, false);
    push_key(&mut v, VK_9, false);
    push_key(&mut v, VK_9, true);
    push_key(&mut v, VK_CONTROL, true);
    v
}

/// Alt+D: moves the focus to the address bar.
pub fn address_bar_focus() -> (r: Vec<KeyInput>)
    ensures
        r@ == seq![press(VK_MENU), press(VK_D), release(VK_D), release(VK_MENU)],
{
    let mut v = Vec::new();
    push_key(&mut v, VK_MENU, false);
    push_key(&mut v, VK_D, false);
    push_key(&mut v, VK_D, true);
    push_key(&mut v, VK_MENU, true);
    v
}

/// Enter: confirms the address bar.
pub fn address_bar_confirm() -> (r: Vec<KeyInput>)
    ensures
        r@ == seq![press(VK_RETURN), release(VK_RETURN)],
{
    let mut v = Vec::new();
    push_key(&mut v, VK_RETURN, false);
    push_key(&mut v, VK_RETURN, true);
    v
}

/// Typing a path: a Unicode press and release for each UTF-16 unit.
pub fn typed_path(path: &str) -> (r: Vec<KeyInput>)
    ensures
        r@ == typed_units(utf16(path@)),
{
    let units = utf16_units(path);
    let mut v: Vec<KeyInput> = Vec::new();
    let mut i: usize = 0;
    while i < units.len()
        invariant
            i <= units.len(),
            v@ == typed_units(units@.subrange(0, i as int)),
        decreases units.len() - i,
    {
        let u = units[i];
        v.push(KeyInput { vk: 0, scan: u, unicode: true, key_up: false });
        v.push(KeyInput { vk: 0, scan: u, unicode: true, key_up: true });
        proof {
            assert(units@.subrange(0, i + 1).drop_last() =~= units@.subrange(0, i as int));
            assert(v@ =~= typed_units(units@.subrange(0, i as int)) + seq![
                KeyInput { vk: 0, scan: u, unicode: true, key_up: false },
                KeyInput { vk: 0, scan: u, unicode: true, key_up: true },
            ]);
        }
        i = i + 1;
    }
    proof {
        assert(units@.subrange(0, units.len() as int) =~= units@);
    }
    v
}

/// The modifier keys checked before typing, in order.
pub open spec fn modifier_keys() -> Seq<u16> {
    seq![VK_CONTROL, VK_LCONTROL, VK_RCONTROL, VK_SHIFT, VK_LSHIFT, VK_RSHIFT, VK_MENU, VK_LWIN, VK_RWIN]
}

/// The modifier keys checked before typing, in order.
pub fn modifier_key_list() -> (r: Vec<u16>)
    ensures
        r@ == modifier_keys(),
{
    vec![VK_CONTROL, VK_LCONTROL, VK_RCONTROL, VK_SHIFT, VK_LSHIFT, VK_RSHIFT, VK_MENU, VK_LWIN, VK_RWIN]
}

/// The releases of the listed keys that are held down (`held[i]` for
/// `keys[i]`), in order.
pub open spec fn releases_of(keys: Seq<u16>, held: Seq<bool>) -> Seq<KeyInput>
    decreases keys.len(),
{
    if keys.len() == 0 || held.len() == 0 {
        Seq::empty()
    } else {
        let rest = releases_of(keys.drop_last(), held.take(keys.len() - 1));
        if held.len() >= keys.len() && held[keys.len() - 1] {
            rest.push(release(keys.last()))
        } else {
            rest
        }
    }
}

/// The releases of the listed keys that are held down.
pub fn modifier_releases(keys: &Vec<u16>, held: &Vec<bool>) -> (r: Vec<KeyInput>)
    requires
        keys.len() == held.len(),
    ensures
        r@ == releases_of(keys@, held@),
{
    let mut v: Vec<KeyInput> = Vec::new();
    let mut i: usize = 0;
    while i < keys.len()
        invariant
            i <= keys.len(),
            keys.len() == held.len(),
            v@ == releases_of(keys@.subrange(0, i as int), held@.subrange(0, i as int)),
        decreases keys.len() - i,
    {
        proof {
            let k1 = keys@.subrange(0, i + 1);
            let h1 = held@.subrange(0, i + 1);
            assert(k1.drop_last() =~= keys@.subrange(0, i as int));
            assert(h1.take(k1.len() - 1) =~= held@.subrange(0, i as int));
        }
        if held[i] {
            push_key(&mut v, keys[i], true);
        }
        i = i + 1;
    }
    proof {
        assert(keys@.subrange(0, keys.len() as int) =~= keys@);
        assert(held@.subrange(0, held.len() as int) =~= held@);
    }
    v
}

/// Whether input has to be attached to the target window's thread before
/// focusing it: the target thread is known and is not this thread.
pub fn needs_thread_attach(current_thread: u32, target_thread: u32) -> (r: bool)
    ensures
        r == (target_thread != 0 && current_thread != target_thread),
{
    target_thread != 0 && current_thread != target_thread
}

} // verus!
