//! Interpretation of Explorer location strings: percent-decoding of
//! `LocationURL` values, turning `file:` URLs into Windows paths, deciding
//! whether a string names a folder that a tab can be opened on, recognising
//! the home view, and comparing two paths the way Explorer does.

use vstd::prelude::*;
use vstd::utf8::*;
use crate::window_controller::eq_ignore_ascii_case;
use crate::text::{
    ascii_lowered, is_ascii_text, lemma_replace_ascii, lemma_strip_trailing_ascii, lemma_trim_end_ascii,
    lemma_trim_start_ascii,
    char_utf8, chars_eq, chars_of, concat, contains, matches_at, from_utf8_lossy, has_infix, has_prefix,
    is_white, lower_text, replace_char, replace_chars, starts_with, string_of, strip_trailing, trim_end, trim_start,
    strip_trailing_chars, to_lowercase, trim, trim_chars, utf8_lossy, copy_range,
};

verus! {

/// The value of a hexadecimal digit, as `char::to_digit(16)` gives it.
pub open spec fn hex_value(c: char) -> Option<u8> {
    let u = c as u32;
    if 0x30 <= u && u <= 0x39 {
        Some((u - 0x30) as u8)
    } else if 0x61 <= u && u <= 0x66 {
        Some((u - 0x61 + 10) as u8)
    } else if 0x41 <= u && u <= 0x46 {
        Some((u - 0x41 + 10) as u8)
    } else {
        None
    }
}

/// The byte written as the two characters that follow a `%`: both must be
/// hexadecimal digits.
pub open spec fn hex_pair(c1: char, c2: char) -> Option<u8> {
    match (hex_value(c1), hex_value(c2)) {
        (Some(a), Some(b)) => Some((a * 16 + b) as u8),
        _ => None,
    }
}

/// The bytes that percent-decoding produces from `s`: `%XY` becomes the byte
/// `XY`, `+` becomes a space, a `%` not followed by two hex digits is kept
/// together with the (up to two) characters after it, and every other
/// character contributes its UTF-8 encoding.
pub open spec fn percent_bytes(s: Seq<char>) -> Seq<u8>
    decreases s.len(),
{
    if s.len() == 0 {
        seq![]
    } else if s[0] == '%' {
        if s.len() >= 3 && hex_pair(s[1], s[2]) is Some {
            seq![hex_pair(s[1], s[2]).unwrap()] + percent_bytes(s.skip(3))
        } else {
            let k: int = if s.len() >= 3 { 3 } else { s.len() as int };
            seq![0x25u8] + encode_utf8(s.subrange(1, k)) + percent_bytes(s.skip(k))
        }
    } else if s[0] == '+' {
        seq![0x20u8] + percent_bytes(s.skip(1))
    } else {
        encode_utf8(seq![s[0]]) + percent_bytes(s.skip(1))
    }
}

/// The text that `url_decode` gives for `s`: the decoded bytes read as
/// UTF-8 when they are valid UTF-8, else their lossy reading.
pub open spec fn url_decoded(s: Seq<char>) -> Seq<char> {
    let b = percent_bytes(s);
    if valid_utf8(b) {
        decode_utf8(b)
    } else {
        utf8_lossy(b)
    }
}

/// What a decoded location string stands for, given the decoded text and its
/// lower-case form: `file:///X` is the local path `X` with `/` turned into
/// `\`, `file://X` is the UNC path `\\X`, and `shell:` or `::{` locations
/// (in any case) are kept as they are.
pub open spec fn location_from_decoded(decoded: Seq<char>, lowered: Seq<char>) -> Option<Seq<char>> {
    if has_prefix(decoded, "file:///"@) {
        let local = replace_char(decoded.skip("file:///"@.len() as int), '/', '\\');
        if local.len() > 0 {
            Some(local)
        } else {
            None
        }
    } else if has_prefix(decoded, "file://"@) {
        Some("\\\\"@ + replace_char(decoded.skip("file://"@.len() as int), '/', '\\'))
    } else if has_prefix(lowered, "shell:"@) || has_prefix(lowered, "::{"@) {
        Some(decoded)
    } else {
        None
    }
}

/// What `parse_location_url` gives for `url`.
pub open spec fn parsed_location(url: Seq<char>) -> Option<Seq<char>> {
    let t = trim(url);
    if t.len() == 0 {
        None
    } else {
        let d = url_decoded(t);
        location_from_decoded(d, lower_text(d))
    }
}

/// The lower-case names under which Explorer shows its virtual top-level folders.
pub open spec fn is_virtual_folder_name(lowered: Seq<char>) -> bool {
    ||| lowered == "pc"@
    ||| lowered == "this pc"@
    ||| lowered == "home"@
    ||| lowered == "ホーム"@
    ||| lowered == "gallery"@
    ||| lowered == "ギャラリー"@
}

/// The root of the system drive, `C:` followed by one separator (`C:\`,
/// `c:/`). Windows is installed there and it always exists, so it is taken
/// as a folder without asking the file system; any other drive root is a
/// folder only when the file system says it is a directory.
pub open spec fn is_system_drive_root(t: Seq<char>) -> bool {
    t.len() == 3 && (t[0] == 'C' || t[0] == 'c') && t[1] == ':' && (t[2] == '\\' || t[2] == '/')
}

/// Whether a lower-cased path is a zip archive, or a folder inside one,
/// which Explorer opens as a compressed folder.
pub open spec fn is_zip_folder(lowered: Seq<char>) -> bool {
    ||| (lowered.len() >= 4 && lowered.subrange(lowered.len() - 4, lowered.len() as int) == ".zip"@)
    ||| has_infix(lowered, ".zip\\"@)
}

/// Whether the trimmed string `t`, whose lower-case form is `lowered`, names
/// a folder that can be navigated to, given whether a directory of that name
/// exists: UNC paths, the root of the system drive, existing directories,
/// zip archives opened as
/// compressed folders, `shell:` and `::{` locations and the virtual folder
/// names qualify; the empty string does not.
pub open spec fn navigable_given(t: Seq<char>, lowered: Seq<char>, dir_exists: bool) -> bool {
    &&& t.len() > 0
    &&& {
        ||| has_prefix(t, "\\\\"@)
        ||| has_prefix(t, "//"@)
        ||| is_system_drive_root(t)
        ||| dir_exists
        ||| is_zip_folder(lowered)
        ||| has_prefix(lowered, "shell:"@)
        ||| has_prefix(lowered, "::{"@)
        ||| is_virtual_folder_name(lowered)
    }
}

/// Whether deciding if the trimmed path `t` is navigable needs the file
/// system: it is not empty, not a UNC path and not the system drive root.
pub open spec fn needs_dir_query(t: Seq<char>) -> bool {
    &&& t.len() > 0
    &&& !has_prefix(t, "\\\\"@)
    &&& !has_prefix(t, "//"@)
    &&& !is_system_drive_root(t)
}

/// The path that the file system is asked about to decide whether `path`
/// is navigable: `path` trimmed, when the answer is needed at all.
pub open spec fn dir_query(path: Seq<char>) -> Option<Seq<char>> {
    if needs_dir_query(trim(path)) {
        Some(trim(path))
    } else {
        None
    }
}

/// Whether a lower-cased, trimmed location names the home view
/// (Home / Quick access, or one of its CLSIDs).
pub open spec fn is_home_lowered(lowered: Seq<char>) -> bool {
    ||| lowered == "home"@
    ||| lowered == "ホーム"@
    ||| lowered == "quick access"@
    ||| lowered == "クイック アクセス"@
    ||| lowered == "クイックアクセス"@
    ||| has_infix(lowered, "::{6dcd978d-6903-4905-885e-812c59d810b8}"@)
    ||| has_infix(lowered, "::{679f85cb-0220-4080-929b-55a21749c2c1}"@)
    ||| has_infix(lowered, "::{f874320e-b68e-4156-a30f-211113d6615b}"@)
}

/// What `is_home_path` gives for `p`.
pub open spec fn home_path(p: Seq<char>) -> bool {
    is_home_lowered(lower_text(trim(p)))
}

/// The form in which two paths are compared: trimmed, `/` turned into `\`,
/// trailing `\` removed, lower-cased.
pub open spec fn normalized_path(p: Seq<char>) -> Seq<char> {
    lower_text(strip_trailing(replace_char(trim(p), '/', '\\'), '\\'))
}

/// Whether `is_dir` would hold on the given path. This asks the file
/// system, so nothing is stated of the answer.
#[verifier::external_body]
pub(crate) fn directory_exists(path: &str) -> bool {
    std::path::Path::new(path).is_dir()
}

/// The value of one hexadecimal digit.
fn hex_digit(c: char) -> (r: Option<u8>)
    ensures
        r == hex_value(c),
{
    let u = c as u32;
    if 0x30 <= u && u <= 0x39 {
        Some((u - 0x30) as u8)
    } else if 0x61 <= u && u <= 0x66 {
        Some((u - 0x61 + 10) as u8)
    } else if 0x41 <= u && u <= 0x46 {
        Some((u - 0x41 + 10) as u8)
    } else {
        None
    }
}

/// The byte written as the two characters after a `%`, if they form one.
pub fn hex_byte(c1: char, c2: char) -> (r: Option<u8>)
    ensures
        r == hex_pair(c1, c2),
{
    match (hex_digit(c1), hex_digit(c2)) {
        (Some(a), Some(b)) => Some(a * 16 + b),
        _ => None,
    }
}

/// Appends the bytes of `b` to `v`.
fn extend_bytes(v: &mut Vec<u8>, b: &Vec<u8>)
    ensures
        final(v)@ == old(v)@ + b@,
{
    let mut i: usize = 0;
    while i < b.len()
        invariant
            i <= b.len(),
            v@ == old(v)@ + b@.subrange(0, i as int),
        decreases b.len() - i,
    {
        v.push(b[i]);
        proof {
            assert(b@.subrange(0, i + 1) =~= b@.subrange(0, i as int).push(b@[i as int]));
        }
        i = i + 1;
    }
    proof {
        assert(b@.subrange(0, b.len() as int) =~= b@);
    }
}

/// The bytes that percent-decoding produces from `s`, before they are read
/// back as UTF-8.
pub fn percent_decode_bytes(s: &str) -> (r: Vec<u8>)
    ensures
        r@ == percent_bytes(s@),
{
    let cs = chars_of(s);
    let n = cs.len();
    let mut bytes: Vec<u8> = Vec::new();
    let mut i: usize = 0;
    proof {
        assert(cs@.skip(0) =~= cs@);
    }
    while i < n
        invariant
            n == cs.len(),
            i <= n,
            cs@ == s@,
            bytes@ + percent_bytes(cs@.skip(i as int)) == percent_bytes(s@),
        decreases n - i,
    {
        let ghost rest = cs@.skip(i as int);
        let ghost old_b = bytes@;
        let c = cs[i];
        if c == '%' && n - i >= 3 && hex_byte(cs[i + 1], cs[i + 2]).is_some() {
            let b = hex_byte(cs[i + 1], cs[i + 2]).unwrap();
            bytes.push(b);
            proof {
                assert(percent_bytes(rest) == seq![b] + percent_bytes(rest.skip(3)));
                assert(rest.skip(3) =~= cs@.skip(i + 3));
                assert(old_b + (seq![b] + percent_bytes(rest.skip(3))) =~= bytes@ + percent_bytes(
                    rest.skip(3),
                ));
            }
            i = i + 3;
        } else if c == '%' && n - i >= 3 {
            bytes.push(0x25u8);
            let e1 = char_utf8(cs[i + 1]);
            let e2 = char_utf8(cs[i + 2]);
            extend_bytes(&mut bytes, &e1);
            extend_bytes(&mut bytes, &e2);
            proof {
                reveal_with_fuel(encode_utf8, 3);
                let mid = rest.subrange(1, 3);
                assert(mid.drop_first() =~= seq![cs@[i + 2]]);
                assert(seq![cs@[i + 2]].drop_first() =~= Seq::<char>::empty());
                assert(seq![cs@[i + 1]].drop_first() =~= Seq::<char>::empty());
                assert(encode_utf8(mid) =~= e1@ + e2@);
                assert(percent_bytes(rest) == seq![0x25u8] + encode_utf8(mid) + percent_bytes(
                    rest.skip(3),
                ));
                assert(rest.skip(3) =~= cs@.skip(i + 3));
                assert(old_b + (seq![0x25u8] + encode_utf8(mid) + percent_bytes(rest.skip(3)))
                    =~= bytes@ + percent_bytes(rest.skip(3)));
            }
            i = i + 3;
        } else if c == '%' {
            bytes.push(0x25u8);
            if n - i == 2 {
                let e1 = char_utf8(cs[i + 1]);
                extend_bytes(&mut bytes, &e1);
            }
            proof {
                reveal_with_fuel(encode_utf8, 2);
                let k: int = (n - i) as int;
                let mid = rest.subrange(1, k);
                if k == 2 {
                    assert(mid =~= seq![cs@[i + 1]]);
                    assert(seq![cs@[i + 1]].drop_first() =~= Seq::<char>::empty());
                } else {
                    assert(mid =~= Seq::<char>::empty());
                }
                assert(rest.skip(k) =~= Seq::<char>::empty());
                assert(cs@.skip(n as int) =~= Seq::<char>::empty());
                assert(percent_bytes(rest) == seq![0x25u8] + encode_utf8(mid) + percent_bytes(
                    rest.skip(k),
                ));
                assert(old_b + (seq![0x25u8] + encode_utf8(mid) + percent_bytes(rest.skip(k)))
                    =~= bytes@ + percent_bytes(cs@.skip(n as int)));
            }
            i = n;
        } else if c == '+' {
            bytes.push(0x20u8);
            proof {
                assert(rest.skip(1) =~= cs@.skip(i + 1));
                assert(old_b + (seq![0x20u8] + percent_bytes(rest.skip(1))) =~= bytes@
                    + percent_bytes(rest.skip(1)));
            }
            i = i + 1;
        } else {
            let e = char_utf8(c);
            extend_bytes(&mut bytes, &e);
            proof {
                assert(rest.skip(1) =~= cs@.skip(i + 1));
                assert(old_b + (encode_utf8(seq![c]) + percent_bytes(rest.skip(1))) =~= bytes@
                    + percent_bytes(rest.skip(1)));
            }
            i = i + 1;
        }
    }
    proof {
        assert(cs@.skip(n as int) =~= Seq::<char>::empty());
        assert(bytes@ + Seq::<u8>::empty() =~= bytes@);
    }
    bytes
}

/// Percent-decodes a URL string (e.g. `file:///C:/Path%20With%20Spaces`
/// becomes `file:///C:/Path With Spaces`); the decoded bytes are read back as
/// UTF-8, invalid sequences turning into replacement characters.
pub fn url_decode(s: &str) -> (r: String)
    ensures
        r@ == url_decoded(s@),
        !s@.contains('%') ==> r@ == replace_char(s@, '+', ' '),
        !s@.contains('%') && !s@.contains('+') ==> r@ == s@,
{
    let bytes = percent_decode_bytes(s);
    proof {
        if !s@.contains('%') {
            let t = replace_char(s@, '+', ' ');
            lemma_plain_text_bytes(s@);
            encode_utf8_valid_utf8(t);
            encode_utf8_decode_utf8(t);
            if !s@.contains('+') {
                assert(t =~= s@) by {
                    assert forall|i: int| 0 <= i < s@.len() implies t[i] == s@[i] by {
                        assert(s@.contains(s@[i]));
                    }
                }
            }
        }
    }
    from_utf8_lossy(&bytes)
}

/// Text without `%` percent-decodes to the UTF-8 encoding of itself with
/// every `+` turned into a space.
proof fn lemma_plain_text_bytes(s: Seq<char>)
    requires
        !s.contains('%'),
    ensures
        percent_bytes(s) == encode_utf8(replace_char(s, '+', ' ')),
    decreases s.len(),
{
    let t = replace_char(s, '+', ' ');
    if s.len() > 0 {
        let rest = s.skip(1);
        assert(rest =~= s.drop_first());
        assert forall|c: char| rest.contains(c) implies s.contains(c) by {
            let k = choose|k: int| 0 <= k < rest.len() && rest[k] == c;
            assert(s[k + 1] == c);
        }
        assert(s[0] != '%') by {
            assert(s.contains(s[0]));
        }
        lemma_plain_text_bytes(rest);
        assert(t.drop_first() =~= replace_char(rest, '+', ' '));
        reveal_with_fuel(encode_utf8, 2);
        assert(encode_utf8(t) == encode_scalar(t[0] as u32) + encode_utf8(t.drop_first()));
        if s[0] == '+' {
            assert(t[0] == ' ');
            assert((0x20u32 & 0x7F) as u8 == 0x20u8) by (bit_vector);
            assert(encode_scalar(t[0] as u32) =~= seq![0x20u8]);
        } else {
            assert(t[0] == s[0]);
            assert(seq![s[0]].drop_first() =~= Seq::<char>::empty());
            assert(encode_utf8(seq![s[0]]) =~= encode_scalar(s[0] as u32));
        }
    } else {
        assert(t =~= Seq::<char>::empty());
    }
}

/// What a decoded `LocationURL` stands for, given the decoded text and its
/// lower-case form.
pub fn location_from_decoded_text(decoded: &str, lowered: &str) -> (r: Option<String>)
    ensures
        r matches Some(v) ==> location_from_decoded(decoded@, lowered@) == Some(v@),
        r is None ==> location_from_decoded(decoded@, lowered@) is None,
{
    let d = chars_of(decoded);
    let l = chars_of(lowered);
    let file3 = chars_of("file:///");
    let file2 = chars_of("file://");
    if starts_with(&d, &file3) {
        let rest = copy_range(&d, file3.len(), d.len());
        let local = replace_chars(&rest, '/', '\\');
        proof {
            assert(rest@ =~= decoded@.skip("file:///"@.len() as int));
        }
        if local.len() > 0 {
            return Some(string_of(&local));
        }
        return None;
    }
    if starts_with(&d, &file2) {
        let rest = copy_range(&d, file2.len(), d.len());
        let unc = concat(&chars_of("\\\\"), &replace_chars(&rest, '/', '\\'));
        proof {
            assert(rest@ =~= decoded@.skip("file://"@.len() as int));
        }
        return Some(string_of(&unc));
    }
    if starts_with(&l, &chars_of("shell:")) || starts_with(&l, &chars_of("::{")) {
        return Some(string_of(&d));
    }
    None
}

/// Decodes and parses a `LocationURL` (`file:///C:/path`, `file://server/share`,
/// `shell:...`, `::{...}`) into the path Explorer shows; `None` for an empty
/// or unrecognised location.
pub fn parse_location_url(url: &str) -> (r: Option<String>)
    ensures
        r matches Some(v) ==> parsed_location(url@) == Some(v@),
        r is None ==> parsed_location(url@) is None,
{
    let t = trim_chars(&chars_of(url));
    if t.len() == 0 {
        return None;
    }
    let ts = string_of(&t);
    let decoded = url_decode(ts.as_str());
    let lowered = to_lowercase(decoded.as_str());
    location_from_decoded_text(decoded.as_str(), lowered.as_str())
}

/// Whether `t` is the root of the system drive.
pub fn system_drive_root(t: &Vec<char>) -> (r: bool)
    ensures
        r == is_system_drive_root(t@),
{
    t.len() == 3 && (t[0] == 'C' || t[0] == 'c') && t[1] == ':' && (t[2] == '\\' || t[2] == '/')
}

/// Whether a lower-cased path is a zip archive or a folder inside one.
pub fn zip_folder(lowered: &Vec<char>) -> (r: bool)
    ensures
        r == is_zip_folder(lowered@),
{
    let ext = chars_of(".zip");
    let inner = chars_of(".zip\\");
    proof {
        reveal_strlit(".zip");
        reveal_strlit(".zip\\");
    }
    (lowered.len() >= 4 && matches_at(lowered, &ext, lowered.len() - 4)) || contains(lowered, &inner)
}

/// The path that the file system is asked about to decide whether `path`
/// is navigable, or `None` when no answer is needed.
pub fn dir_query_path(path: &str) -> (r: Option<String>)
    ensures
        r matches Some(q) ==> dir_query(path@) == Some(q@),
        r is None ==> dir_query(path@) is None,
{
    let t = trim_chars(&chars_of(path));
    if t.len() == 0 || starts_with(&t, &chars_of("\\\\")) || starts_with(&t, &chars_of("//"))
        || system_drive_root(&t) {
        None
    } else {
        Some(string_of(&t))
    }
}

/// When no answer of the file system is needed, any answer gives the same
/// decision.
pub proof fn lemma_no_query_no_difference(path: Seq<char>, d: bool)
    ensures
        dir_query(path) is None ==> navigable_given(trim(path), lower_text(trim(path)), d)
            == navigable_given(trim(path), lower_text(trim(path)), false),
{
}

/// Whether the trimmed string `trimmed`, whose lower-case form is `lowered`,
/// names a navigable folder, given whether a directory of that name exists.
pub fn folder_is_navigable(trimmed: &str, lowered: &str, dir_exists: bool) -> (r: bool)
    ensures
        r == navigable_given(trimmed@, lowered@, dir_exists),
{
    let t = chars_of(trimmed);
    if t.len() == 0 {
        return false;
    }
    if starts_with(&t, &chars_of("\\\\")) || starts_with(&t, &chars_of("//")) || system_drive_root(&t)
        || dir_exists {
        return true;
    }
    let l = chars_of(lowered);
    zip_folder(&l) || starts_with(&l, &chars_of("shell:")) || starts_with(&l, &chars_of("::{")) || chars_eq(
        &l,
        &chars_of("pc"),
    ) || chars_eq(&l, &chars_of("this pc")) || chars_eq(&l, &chars_of("home")) || chars_eq(
        &l,
        &chars_of("ホーム"),
    ) || chars_eq(&l, &chars_of("gallery")) || chars_eq(&l, &chars_of("ギャラリー"))
}

/// Whether a folder can be navigated to: UNC paths, the root of the system
/// drive, existing directories (other drive roots among them), zip archives
/// opened as compressed folders, `shell:` and CLSID (`::{`) locations, and the virtual folders (PC, Home,
/// Gallery). Whether a directory exists is asked of the file system only
/// about the path that `dir_query_path` gives (the trimmed path, when it is
/// not empty, not UNC and not the system drive root); the result is
/// `navigable_given` for the answer it gave, which the contract does not
/// know, so the result is pinned down wherever that answer does not matter.
pub fn is_navigable_folder(path: &str) -> (r: bool)
    ensures
        exists|dir_exists: bool| r == navigable_given(trim(path@), lower_text(trim(path@)), dir_exists),
        navigable_given(trim(path@), lower_text(trim(path@)), false) ==> r,
        r ==> navigable_given(trim(path@), lower_text(trim(path@)), true),
        dir_query(path@) is None ==> r == navigable_given(trim(path@), lower_text(trim(path@)), false),
{
    match dir_query_path(path) {
        None => {
            let t = trim_chars(&chars_of(path));
            proof {
                assert(navigable_given(trim(path@), lower_text(trim(path@)), true) == navigable_given(
                    trim(path@),
                    lower_text(trim(path@)),
                    false,
                ));
            }
            t.len() > 0
        },
        Some(q) => {
            if directory_exists(q.as_str()) {
                proof {
                    assert(navigable_given(trim(path@), lower_text(trim(path@)), true));
                }
                return true;
            }
            let lowered = to_lowercase(q.as_str());
            proof {
                assert(lowered@ == lower_text(q@));
            }
            let r = folder_is_navigable(q.as_str(), lowered.as_str(), false);
            proof {
                assert(r == navigable_given(trim(path@), lower_text(trim(path@)), false));
            }
            r
        },
    }
}

/// Whether a trimmed, lower-cased location names the home view.
pub fn is_home_lowered_text(lowered: &str) -> (r: bool)
    ensures
        r == is_home_lowered(lowered@),
{
    let l = chars_of(lowered);
    chars_eq(&l, &chars_of("home")) || chars_eq(&l, &chars_of("ホーム")) || chars_eq(
        &l,
        &chars_of("quick access"),
    ) || chars_eq(&l, &chars_of("クイック アクセス")) || chars_eq(
        &l,
        &chars_of("クイックアクセス"),
    ) || contains(&l, &chars_of("::{6dcd978d-6903-4905-885e-812c59d810b8}")) || contains(
        &l,
        &chars_of("::{679f85cb-0220-4080-929b-55a21749c2c1}"),
    ) || contains(&l, &chars_of("::{f874320e-b68e-4156-a30f-211113d6615b}"))
}

/// Whether `p` names the home view or one of its default virtual folders.
pub fn is_home_path(p: &str) -> (r: bool)
    ensures
        r == home_path(p@),
{
    let t = string_of(&trim_chars(&chars_of(p)));
    let lowered = to_lowercase(t.as_str());
    is_home_lowered_text(lowered.as_str())
}

/// The form in which paths are compared (trimmed, `/` as `\`, no trailing
/// `\`, lower-case).
pub fn normalize_path_for_equiv(path: &str) -> (r: String)
    ensures
        r@ == normalized_path(path@),
{
    let t = trim_chars(&chars_of(path));
    let replaced = replace_chars(&t, '/', '\\');
    let stripped = string_of(&strip_trailing_chars(&replaced, '\\'));
    to_lowercase(stripped.as_str())
}

/// Whether two path strings denote the same folder: `/` and `\` are the
/// same, trailing `\` and surrounding whitespace are ignored, and case is
/// ignored.
pub fn are_paths_equivalent(path1: &str, path2: &str) -> (r: bool)
    ensures
        r == (normalized_path(path1@) == normalized_path(path2@)),
{
    let n1 = normalize_path_for_equiv(path1);
    let n2 = normalize_path_for_equiv(path2);
    n1 == n2
}

/// The upper-case hexadecimal digit for a value below 16.
pub open spec fn hex_char(n: u8) -> char {
    seq!['0', '1', '2', '3', '4', '5', '6', '7', '8', '9', 'A', 'B', 'C', 'D', 'E', 'F'][n as int]
}

/// Every byte written as `%XY`, with upper-case hexadecimal digits.
pub open spec fn percent_encoded(bytes: Seq<u8>) -> Seq<char>
    decreases bytes.len(),
{
    if bytes.len() == 0 {
        Seq::empty()
    } else {
        seq!['%', hex_char(bytes[0] / 16), hex_char(bytes[0] % 16)] + percent_encoded(bytes.drop_first())
    }
}

proof fn lemma_hex_char_value(n: u8)
    requires
        n < 16,
    ensures
        hex_value(hex_char(n)) == Some(n),
{
    assert(n == 0 || n == 1 || n == 2 || n == 3 || n == 4 || n == 5 || n == 6 || n == 7 || n == 8
        || n == 9 || n == 10 || n == 11 || n == 12 || n == 13 || n == 14 || n == 15);
}

proof fn lemma_percent_bytes_of_encoded(bytes: Seq<u8>)
    ensures
        percent_bytes(percent_encoded(bytes)) == bytes,
    decreases bytes.len(),
{
    if bytes.len() > 0 {
        let b = bytes[0];
        let s = percent_encoded(bytes);
        let rest = percent_encoded(bytes.drop_first());
        lemma_hex_char_value(b / 16);
        lemma_hex_char_value(b % 16);
        assert(((b / 16) * 16 + b % 16) as u8 == b) by (nonlinear_arith);
        assert(s[0] == '%' && s[1] == hex_char(b / 16) && s[2] == hex_char(b % 16));
        assert(s.skip(3) =~= rest);
        lemma_percent_bytes_of_encoded(bytes.drop_first());
        assert(seq![b] + bytes.drop_first() =~= bytes);
    }
}

/// Percent-encoding every UTF-8 byte of a text, multi-byte characters
/// included, and decoding the result gives the text back.
pub proof fn lemma_percent_encoding_round_trip(t: Seq<char>)
    ensures
        url_decoded(percent_encoded(encode_utf8(t))) == t,
{
    lemma_percent_bytes_of_encoded(encode_utf8(t));
    encode_utf8_valid_utf8(t);
    encode_utf8_decode_utf8(t);
}

/// The form in which an ASCII path is compared is its own ASCII
/// lower-casing, taken through trimming, separator rewriting and trailing
/// separator removal.
proof fn lemma_normalized_ascii(p: Seq<char>)
    requires
        is_ascii_text(p),
    ensures
        normalized_path(p) == strip_trailing(
            replace_char(trim(ascii_lowered(p)), '/', '\\'),
            '\\',
        ),
{
    let t0 = trim_start(p);
    let t = trim(p);
    let r = replace_char(t, '/', '\\');
    let st = strip_trailing(r, '\\');
    lemma_trim_start_ascii(p);
    lemma_trim_end_ascii(t0);
    lemma_replace_ascii(t);
    lemma_strip_trailing_ascii(r);
    assert(lower_text(st) == ascii_lowered(st));
}

/// Path equivalence ignores the case of ASCII letters: two ASCII paths that
/// are equal when ASCII letters are compared without case are equivalent.
pub proof fn lemma_equivalence_ignores_ascii_case(p: Seq<char>, q: Seq<char>)
    requires
        is_ascii_text(p),
        is_ascii_text(q),
        eq_ignore_ascii_case(p, q),
    ensures
        normalized_path(p) == normalized_path(q),
{
    assert(ascii_lowered(p) =~= ascii_lowered(q));
    lemma_normalized_ascii(p);
    lemma_normalized_ascii(q);
}

/// Two paths equivalent to a third are equivalent to each other.
pub proof fn lemma_equivalence_transitive(p: Seq<char>, q: Seq<char>, r: Seq<char>)
    requires
        normalized_path(p) == normalized_path(q),
        normalized_path(q) == normalized_path(r),
    ensures
        normalized_path(p) == normalized_path(r),
{
}

proof fn lemma_replace_drop_first(s: Seq<char>, from: char, to: char)
    requires
        s.len() > 0,
    ensures
        replace_char(s, from, to).drop_first() == replace_char(s.drop_first(), from, to),
{
    assert(replace_char(s, from, to).drop_first() =~= replace_char(s.drop_first(), from, to));
}

proof fn lemma_replace_drop_last(s: Seq<char>, from: char, to: char)
    requires
        s.len() > 0,
    ensures
        replace_char(s, from, to).drop_last() == replace_char(s.drop_last(), from, to),
{
    assert(replace_char(s, from, to).drop_last() =~= replace_char(s.drop_last(), from, to));
}

/// Replacing `/` by `\` commutes with trimming whitespace.
proof fn lemma_trim_replace(s: Seq<char>)
    ensures
        trim_start(replace_char(s, '/', '\\')) == replace_char(trim_start(s), '/', '\\'),
        trim_end(replace_char(s, '/', '\\')) == replace_char(trim_end(s), '/', '\\'),
        trim(replace_char(s, '/', '\\')) == replace_char(trim(s), '/', '\\'),
    decreases s.len(),
{
    let r = replace_char(s, '/', '\\');
    if s.len() > 0 {
        lemma_replace_drop_first(s, '/', '\\');
        lemma_replace_drop_last(s, '/', '\\');
        lemma_trim_replace(s.drop_first());
        lemma_trim_replace(s.drop_last());
        assert(is_white(r[0]) == is_white(s[0]));
        assert(is_white(r.last()) == is_white(s.last()));
    }
    lemma_trim_end_replace(trim_start(s));
}

proof fn lemma_trim_end_replace(s: Seq<char>)
    ensures
        trim_end(replace_char(s, '/', '\\')) == replace_char(trim_end(s), '/', '\\'),
    decreases s.len(),
{
    let r = replace_char(s, '/', '\\');
    if s.len() > 0 {
        lemma_replace_drop_last(s, '/', '\\');
        lemma_trim_end_replace(s.drop_last());
        assert(is_white(r.last()) == is_white(s.last()));
    }
}

/// Writing `/` or `\` as a separator makes no difference to path equivalence.
pub proof fn lemma_equivalence_ignores_slash_style(p: Seq<char>)
    ensures
        normalized_path(replace_char(p, '/', '\\')) == normalized_path(p),
{
    lemma_trim_replace(p);
    let t = trim(p);
    assert(replace_char(replace_char(t, '/', '\\'), '/', '\\') =~= replace_char(t, '/', '\\'));
}

/// Appending a non-whitespace character keeps the leading-whitespace trim.
proof fn lemma_trim_start_append(s: Seq<char>, c: char)
    requires
        !is_white(c),
    ensures
        trim_start(s.push(c)) == trim_start(s).push(c),
    decreases s.len(),
{
    if s.len() > 0 {
        assert(s.push(c).drop_first() =~= s.drop_first().push(c));
        lemma_trim_start_append(s.drop_first(), c);
    } else {
        assert(s.push(c) =~= seq![c]);
        assert(seq![c][0] == c);
    }
}

/// Leading-whitespace trim keeps the last character of a string that does
/// not end in whitespace.
proof fn lemma_trim_start_keeps_end(s: Seq<char>)
    requires
        trim_end(s) == s,
    ensures
        trim_end(trim_start(s)) == trim_start(s),
    decreases s.len(),
{
    if s.len() > 0 {
        if is_white(s.last()) {
            assert(trim_end(s).len() < s.len()) by {
                lemma_trim_end_shorter(s.drop_last());
            }
        }
        if is_white(s[0]) && s.len() > 1 {
            assert(s.drop_first().last() == s.last());
            lemma_trim_start_keeps_end(s.drop_first());
        }
    }
}

proof fn lemma_trim_end_shorter(s: Seq<char>)
    ensures
        trim_end(s).len() <= s.len(),
    decreases s.len(),
{
    if s.len() > 0 {
        lemma_trim_end_shorter(s.drop_last());
    }
}

/// A trailing `\` makes no difference to path equivalence, for a path that
/// does not end in whitespace.
pub proof fn lemma_equivalence_ignores_trailing_separator(p: Seq<char>)
    requires
        trim_end(p) == p,
    ensures
        normalized_path(p.push('\\')) == normalized_path(p),
{
    let t = trim_start(p);
    lemma_trim_start_append(p, '\\');
    lemma_trim_start_keeps_end(p);
    let u = t.push('\\');
    assert(u.drop_last() =~= t);
    assert(trim_end(u) == u);
    let rt = replace_char(t, '/', '\\');
    assert(replace_char(u, '/', '\\') =~= rt.push('\\'));
    assert(rt.push('\\').drop_last() =~= rt);
}

} // verus!
