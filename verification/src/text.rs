//! Character-sequence helpers shared by the path, command-line and
//! configuration logic: Unicode whitespace trimming, prefixes, substrings,
//! character replacement, and the two standard-library conversions that the
//! library relies on (lower-casing and lossy UTF-8 decoding).

use vstd::prelude::*;
use vstd::string::*;
use vstd::utf8::*;
use crate::window_controller::ascii_lower;

verus! {

/// The Unicode `White_Space` property, as used by `char::is_whitespace`
/// and therefore by `str::trim`.
pub open spec fn is_white(c: char) -> bool {
    let u = c as u32;
    ||| (0x09 <= u && u <= 0x0D)
    ||| u == 0x20
    ||| u == 0x85
    ||| u == 0xA0
    ||| u == 0x1680
    ||| (0x2000 <= u && u <= 0x200A)
    ||| u == 0x2028
    ||| u == 0x2029
    ||| u == 0x202F
    ||| u == 0x205F
    ||| u == 0x3000
}

/// `s` with its leading whitespace removed.
pub open spec fn trim_start(s: Seq<char>) -> Seq<char>
    decreases s.len(),
{
    if s.len() > 0 && is_white(s[0]) {
        trim_start(s.drop_first())
    } else {
        s
    }
}

/// `s` with its trailing whitespace removed.
pub open spec fn trim_end(s: Seq<char>) -> Seq<char>
    decreases s.len(),
{
    if s.len() > 0 && is_white(s.last()) {
        trim_end(s.drop_last())
    } else {
        s
    }
}

/// `s` with leading and trailing whitespace removed (`str::trim`).
pub open spec fn trim(s: Seq<char>) -> Seq<char> {
    trim_end(trim_start(s))
}

/// `s` with every trailing occurrence of `c` removed (`str::trim_end_matches`).
pub open spec fn strip_trailing(s: Seq<char>, c: char) -> Seq<char>
    decreases s.len(),
{
    if s.len() > 0 && s.last() == c {
        strip_trailing(s.drop_last(), c)
    } else {
        s
    }
}

/// `p` is a prefix of `s`.
pub open spec fn has_prefix(s: Seq<char>, p: Seq<char>) -> bool {
    p.len() <= s.len() && s.subrange(0, p.len() as int) == p
}

/// `p` occurs somewhere in `s` (an empty `p` occurs everywhere).
pub open spec fn has_infix(s: Seq<char>, p: Seq<char>) -> bool {
    exists|i: int| 0 <= i && i + p.len() <= s.len() && #[trigger] s.subrange(i, i + p.len()) == p
}

/// `s` with every `from` replaced by `to`.
pub open spec fn replace_char(s: Seq<char>, from: char, to: char) -> Seq<char> {
    Seq::new(s.len(), |i: int| if s[i] == from { to } else { s[i] })
}

/// The text that `str::to_lowercase` returns for `s`. Unicode case mapping
/// is a table of the standard library, so the library only names it.
pub uninterp spec fn lowercase(s: Seq<char>) -> Seq<char>;

/// Whether every character of `s` is ASCII.
pub open spec fn is_ascii_text(s: Seq<char>) -> bool {
    forall|i: int| 0 <= i < s.len() ==> (#[trigger] s[i] as u32) < 0x80
}

/// `s` with the ASCII letters `A`-`Z` turned into `a`-`z`.
pub open spec fn ascii_lowered(s: Seq<char>) -> Seq<char> {
    Seq::new(s.len(), |i: int| ascii_lower(s[i]))
}

/// The text that `str::to_lowercase` returns for `s`: for ASCII text, the
/// letters `A`-`Z` turned into `a`-`z` and every other character kept (the
/// Unicode lowercase mapping of ASCII); otherwise the named `lowercase`.
pub open spec fn lower_text(s: Seq<char>) -> Seq<char> {
    if is_ascii_text(s) {
        ascii_lowered(s)
    } else {
        lowercase(s)
    }
}

/// The text that `String::from_utf8_lossy` returns for `bytes`.
pub uninterp spec fn utf8_lossy(bytes: Seq<u8>) -> Seq<char>;

/// Calls `str::to_lowercase`. Its documentation defines lower case by the
/// Unicode `Lowercase` property and mapping, under which ASCII text has its
/// letters `A`-`Z` turned into `a`-`z` and keeps every other character
/// (its example: `"HELLO"` gives `"hello"`); that is stated for ASCII
/// arguments. For other arguments the result is only named (`lowercase`):
/// Unicode case mapping is a table.
#[verifier::external_body]
pub(crate) fn to_lowercase(s: &str) -> (r: String)
    ensures
        is_ascii_text(s@) ==> r@ == ascii_lowered(s@),
        !is_ascii_text(s@) ==> r@ == lowercase(s@),
{
    s.to_lowercase()
}

/// Calls `String::from_utf8_lossy`. Its documentation promises that valid
/// UTF-8 is decoded as is; on other input the result is only named
/// (`utf8_lossy`), replacement characters included.
#[verifier::external_body]
pub(crate) fn from_utf8_lossy(bytes: &Vec<u8>) -> (r: String)
    ensures
        r@ == utf8_lossy(bytes@),
        valid_utf8(bytes@) ==> r@ == decode_utf8(bytes@),
{
    String::from_utf8_lossy(bytes.as_slice()).into_owned()
}

/// The UTF-8 bytes of one character.
pub(crate) fn char_utf8(c: char) -> (r: Vec<u8>)
    ensures
        r@ == encode_utf8(seq![c]),
{
    let v = c as u32;
    proof {
        char_is_scalar(c);
        reveal_with_fuel(encode_utf8, 2);
        assert(seq![c].drop_first() =~= Seq::<char>::empty());
        assert(encode_utf8(seq![c]) =~= encode_scalar(v));
    }
    if v <= 0x7F {
        let r = vec![(v & 0x7F) as u8];
        proof {
            assert(r@ =~= encode_scalar(v));
        }
        r
    } else if v <= 0x7FF {
        let r = vec![0xC0u8 | ((v >> 6) & 0x1F) as u8, 0x80u8 | (v & 0x3F) as u8];
        proof {
            assert(r@ =~= encode_scalar(v));
        }
        r
    } else if v <= 0xFFFF {
        let r = vec![
            0xE0u8 | ((v >> 12) & 0x0F) as u8,
            0x80u8 | ((v >> 6) & 0x3F) as u8,
            0x80u8 | (v & 0x3F) as u8,
        ];
        proof {
            assert(r@ =~= encode_scalar(v));
        }
        r
    } else {
        let r = vec![
            0xF0u8 | ((v >> 18) & 0x7) as u8,
            0x80u8 | ((v >> 12) & 0x3F) as u8,
            0x80u8 | ((v >> 6) & 0x3F) as u8,
            0x80u8 | (v & 0x3F) as u8,
        ];
        proof {
            assert(r@ =~= encode_scalar(v));
        }
        r
    }
}

/// Calls `String::push`: appends one character.
#[verifier::external_body]
pub(crate) fn push_char(s: &mut String, c: char)
    ensures
        final(s)@ == old(s)@.push(c),
{
    s.push(c);
}

/// Whether `c` is Unicode whitespace.
pub fn char_is_white(c: char) -> (r: bool)
    ensures
        r == is_white(c),
{
    let u = c as u32;
    (0x09 <= u && u <= 0x0D) || u == 0x20 || u == 0x85 || u == 0xA0 || u == 0x1680 || (0x2000
        <= u && u <= 0x200A) || u == 0x2028 || u == 0x2029 || u == 0x202F || u == 0x205F || u
        == 0x3000
}

/// The characters of `s`.
pub fn chars_of(s: &str) -> (r: Vec<char>)
    ensures
        r@ == s@,
{
    let n = s.unicode_len();
    let mut r: Vec<char> = Vec::new();
    let mut i: usize = 0;
    while i < n
        invariant
            n == s@.len(),
            i <= n,
            r@ == s@.subrange(0, i as int),
        decreases n - i,
    {
        let c = s.get_char(i);
        r.push(c);
        proof {
            assert(s@.subrange(0, i + 1) =~= s@.subrange(0, i as int).push(c));
        }
        i = i + 1;
    }
    proof {
        assert(s@.subrange(0, n as int) =~= s@);
    }
    r
}

/// A `String` holding the characters of `v`.
pub fn string_of(v: &Vec<char>) -> (r: String)
    ensures
        r@ == v@,
{
    let mut r = String::new();
    let mut i: usize = 0;
    while i < v.len()
        invariant
            i <= v.len(),
            r@ == v@.subrange(0, i as int),
        decreases v.len() - i,
    {
        push_char(&mut r, v[i]);
        proof {
            assert(v@.subrange(0, i + 1) =~= v@.subrange(0, i as int).push(v@[i as int]));
        }
        i = i + 1;
    }
    proof {
        assert(v@.subrange(0, v.len() as int) =~= v@);
    }
    r
}

/// The characters of `s` from index `a` up to (not including) `b`.
pub fn copy_range(s: &Vec<char>, a: usize, b: usize) -> (r: Vec<char>)
    requires
        a <= b <= s.len(),
    ensures
        r@ == s@.subrange(a as int, b as int),
{
    let mut r: Vec<char> = Vec::new();
    let mut i = a;
    while i < b
        invariant
            a <= i <= b,
            b <= s.len(),
            r@ == s@.subrange(a as int, i as int),
        decreases b - i,
    {
        r.push(s[i]);
        proof {
            assert(s@.subrange(a as int, i + 1) =~= s@.subrange(a as int, i as int).push(
                s@[i as int],
            ));
        }
        i = i + 1;
    }
    r
}

/// `s` with leading and trailing Unicode whitespace removed.
pub fn trim_chars(s: &Vec<char>) -> (r: Vec<char>)
    ensures
        r@ == trim(s@),
{
    let n = s.len();
    let mut a: usize = 0;
    proof {
        assert(s@.subrange(0, n as int) =~= s@);
    }
    while a < n && char_is_white(s[a])
        invariant
            a <= n,
            n == s.len(),
            trim_start(s@.subrange(a as int, n as int)) == trim_start(s@),
        decreases n - a,
    {
        proof {
            assert(s@.subrange(a as int, n as int).drop_first() =~= s@.subrange(
                a + 1,
                n as int,
            ));
        }
        a = a + 1;
    }
    proof {
        assert(s@.subrange(0, n as int) =~= s@);
        reveal_with_fuel(trim_start, 2);
        assert(trim_start(s@) == s@.subrange(a as int, n as int));
    }
    let mut b: usize = n;
    while b > a && char_is_white(s[b - 1])
        invariant
            a <= b <= n,
            n == s.len(),
            trim_end(s@.subrange(a as int, b as int)) == trim_end(s@.subrange(a as int, n as int)),
        decreases b,
    {
        proof {
            assert(s@.subrange(a as int, b as int).drop_last() =~= s@.subrange(
                a as int,
                b - 1,
            ));
        }
        b = b - 1;
    }
    proof {
        reveal_with_fuel(trim_end, 2);
    }
    copy_range(s, a, b)
}

/// `s` with every trailing `c` removed.
pub fn strip_trailing_chars(s: &Vec<char>, c: char) -> (r: Vec<char>)
    ensures
        r@ == strip_trailing(s@, c),
{
    let n = s.len();
    let mut b: usize = n;
    proof {
        assert(s@.subrange(0, n as int) =~= s@);
    }
    while b > 0 && s[b - 1] == c
        invariant
            b <= n,
            n == s.len(),
            strip_trailing(s@.subrange(0, b as int), c) == strip_trailing(s@, c),
        decreases b,
    {
        proof {
            assert(s@.subrange(0, b as int).drop_last() =~= s@.subrange(0, b - 1));
        }
        b = b - 1;
    }
    proof {
        assert(s@.subrange(0, n as int) =~= s@);
        reveal_with_fuel(strip_trailing, 2);
    }
    copy_range(s, 0, b)
}

/// `s` with every `from` replaced by `to`.
pub fn replace_chars(s: &Vec<char>, from: char, to: char) -> (r: Vec<char>)
    ensures
        r@ == replace_char(s@, from, to),
{
    let mut r: Vec<char> = Vec::new();
    let mut i: usize = 0;
    while i < s.len()
        invariant
            i <= s.len(),
            r@ == replace_char(s@.subrange(0, i as int), from, to),
        decreases s.len() - i,
    {
        let c = s[i];
        if c == from {
            r.push(to);
        } else {
            r.push(c);
        }
        proof {
            assert(replace_char(s@.subrange(0, i + 1), from, to) =~= replace_char(
                s@.subrange(0, i as int),
                from,
                to,
            ).push(if c == from { to } else { c }));
        }
        i = i + 1;
    }
    proof {
        assert(s@.subrange(0, s.len() as int) =~= s@);
    }
    r
}

/// Whether `p` occurs in `s` starting at index `at`.
pub fn matches_at(s: &Vec<char>, p: &Vec<char>, at: usize) -> (r: bool)
    requires
        at <= s.len(),
    ensures
        r == (at + p.len() <= s.len() && s@.subrange(at as int, at + p.len()) == p@),
{
    if p.len() > s.len() - at {
        return false;
    }
    let mut j: usize = 0;
    while j < p.len()
        invariant
            j <= p.len(),
            at + p.len() <= s.len(),
            forall|k: int| 0 <= k < j ==> s@[at + k] == p@[k],
        decreases p.len() - j,
    {
        if s[at + j] != p[j] {
            proof {
                assert(s@.subrange(at as int, at + p.len())[j as int] != p@[j as int]);
            }
            return false;
        }
        j = j + 1;
    }
    proof {
        assert(s@.subrange(at as int, at + p.len()) =~= p@);
    }
    true
}

/// Whether `s` begins with `p`.
pub fn starts_with(s: &Vec<char>, p: &Vec<char>) -> (r: bool)
    ensures
        r == has_prefix(s@, p@),
{
    matches_at(s, p, 0)
}

/// Whether `p` occurs in `s`.
pub fn contains(s: &Vec<char>, p: &Vec<char>) -> (r: bool)
    ensures
        r == has_infix(s@, p@),
{
    if p.len() > s.len() {
        return false;
    }
    let last = s.len() - p.len();
    let mut i: usize = 0;
    while i <= last
        invariant
            last + p.len() == s.len(),
            i <= last + 1,
            forall|k: int| 0 <= k < i ==> #[trigger] s@.subrange(k, k + p.len()) != p@,
        decreases last + 1 - i,
    {
        if matches_at(s, p, i) {
            return true;
        }
        if i == last {
            return false;
        }
        i = i + 1;
    }
    false
}

/// Whether `a` and `b` hold the same characters.
pub fn chars_eq(a: &Vec<char>, b: &Vec<char>) -> (r: bool)
    ensures
        r == (a@ == b@),
{
    if a.len() != b.len() {
        return false;
    }
    let r = matches_at(a, b, 0);
    proof {
        assert(a@.subrange(0, a@.len() as int) =~= a@);
    }
    r
}

/// The characters of `a` followed by those of `b`.
pub fn concat(a: &Vec<char>, b: &Vec<char>) -> (r: Vec<char>)
    ensures
        r@ == a@ + b@,
{
    let mut r = copy_range(a, 0, a.len());
    let mut i: usize = 0;
    while i < b.len()
        invariant
            i <= b.len(),
            r@ == a@ + b@.subrange(0, i as int),
        decreases b.len() - i,
    {
        r.push(b[i]);
        proof {
            assert(b@.subrange(0, i + 1) =~= b@.subrange(0, i as int).push(b@[i as int]));
        }
        i = i + 1;
    }
    proof {
        assert(b@.subrange(0, b.len() as int) =~= b@);
        assert(a@.subrange(0, a.len() as int) =~= a@);
    }
    r
}


/// ASCII lower-casing keeps whitespace, the separators `/` and `\\`, and
/// ASCII-ness, and doing it twice changes nothing.
pub(crate) proof fn lemma_ascii_lower_char(c: char)
    ensures
        is_white(ascii_lower(c)) == is_white(c),
        (ascii_lower(c) == '/') == (c == '/'),
        (ascii_lower(c) == '\\') == (c == '\\'),
        (c as u32) < 0x80 ==> (ascii_lower(c) as u32) < 0x80,
        ascii_lower(ascii_lower(c)) == ascii_lower(c),
{
    if 'A' <= c && c <= 'Z' {
        assert(0x61 <= (ascii_lower(c) as u32) <= 0x7A);
    }
}

proof fn lemma_ascii_lowered_ends(s: Seq<char>)
    requires
        s.len() > 0,
    ensures
        ascii_lowered(s).drop_first() == ascii_lowered(s.drop_first()),
        ascii_lowered(s).drop_last() == ascii_lowered(s.drop_last()),
        is_ascii_text(s) ==> is_ascii_text(s.drop_first()) && is_ascii_text(s.drop_last()),
{
    assert(ascii_lowered(s).drop_first() =~= ascii_lowered(s.drop_first()));
    assert(ascii_lowered(s).drop_last() =~= ascii_lowered(s.drop_last()));
    if is_ascii_text(s) {
        assert forall|i: int| 0 <= i < s.drop_first().len() implies (#[trigger] s.drop_first()[i] as u32) < 0x80 by {
            assert(s.drop_first()[i] == s[i + 1]);
        }
        assert forall|i: int| 0 <= i < s.drop_last().len() implies (#[trigger] s.drop_last()[i] as u32) < 0x80 by {
            assert(s.drop_last()[i] == s[i]);
        }
    }
}

/// Trimming leading whitespace commutes with ASCII lower-casing and keeps
/// ASCII text ASCII.
pub(crate) proof fn lemma_trim_start_ascii(s: Seq<char>)
    ensures
        trim_start(ascii_lowered(s)) == ascii_lowered(trim_start(s)),
        is_ascii_text(s) ==> is_ascii_text(trim_start(s)),
    decreases s.len(),
{
    if s.len() > 0 {
        lemma_ascii_lower_char(s[0]);
        lemma_ascii_lowered_ends(s);
        lemma_trim_start_ascii(s.drop_first());
    }
}

/// Trimming trailing whitespace commutes with ASCII lower-casing and keeps
/// ASCII text ASCII.
pub(crate) proof fn lemma_trim_end_ascii(s: Seq<char>)
    ensures
        trim_end(ascii_lowered(s)) == ascii_lowered(trim_end(s)),
        is_ascii_text(s) ==> is_ascii_text(trim_end(s)),
    decreases s.len(),
{
    if s.len() > 0 {
        lemma_ascii_lower_char(s.last());
        lemma_ascii_lowered_ends(s);
        lemma_trim_end_ascii(s.drop_last());
    }
}

/// Removing trailing `\\` commutes with ASCII lower-casing and keeps ASCII
/// text ASCII.
pub(crate) proof fn lemma_strip_trailing_ascii(s: Seq<char>)
    ensures
        strip_trailing(ascii_lowered(s), '\\') == ascii_lowered(strip_trailing(s, '\\')),
        is_ascii_text(s) ==> is_ascii_text(strip_trailing(s, '\\')),
    decreases s.len(),
{
    if s.len() > 0 {
        lemma_ascii_lower_char(s.last());
        lemma_ascii_lowered_ends(s);
        lemma_strip_trailing_ascii(s.drop_last());
    }
}

/// Turning `/` into `\\` commutes with ASCII lower-casing and keeps ASCII
/// text ASCII.
pub(crate) proof fn lemma_replace_ascii(s: Seq<char>)
    ensures
        replace_char(ascii_lowered(s), '/', '\\') == ascii_lowered(replace_char(s, '/', '\\')),
        is_ascii_text(s) ==> is_ascii_text(replace_char(s, '/', '\\')),
{
    assert forall|i: int| 0 <= i < s.len() implies #[trigger] replace_char(ascii_lowered(s), '/', '\\')[i]
        == ascii_lowered(replace_char(s, '/', '\\'))[i] by {
        lemma_ascii_lower_char(s[i]);
        lemma_ascii_lower_char('\\');
    }
    assert(replace_char(ascii_lowered(s), '/', '\\') =~= ascii_lowered(replace_char(s, '/', '\\')));
    if is_ascii_text(s) {
        assert forall|i: int| 0 <= i < s.len() implies (#[trigger] replace_char(s, '/', '\\')[i] as u32)
            < 0x80 by {
            assert((s[i] as u32) < 0x80);
        }
    }
}

/// ASCII lower-casing twice is lower-casing once, and gives ASCII text.
pub(crate) proof fn lemma_ascii_lowered_idempotent(s: Seq<char>)
    ensures
        is_ascii_text(s) ==> is_ascii_text(ascii_lowered(s)),
        ascii_lowered(ascii_lowered(s)) == ascii_lowered(s),
{
    assert forall|i: int| 0 <= i < s.len() implies #[trigger] ascii_lowered(ascii_lowered(s))[i]
        == ascii_lowered(s)[i] by {
        lemma_ascii_lower_char(s[i]);
    }
    assert(ascii_lowered(ascii_lowered(s)) =~= ascii_lowered(s));
    if is_ascii_text(s) {
        assert forall|i: int| 0 <= i < s.len() implies (#[trigger] ascii_lowered(s)[i] as u32) < 0x80 by {
            assert((s[i] as u32) < 0x80);
            lemma_ascii_lower_char(s[i]);
        }
    }
}

} // verus!
