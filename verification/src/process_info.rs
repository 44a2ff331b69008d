//! What the library reads out of a process: the folder an Explorer process
//! was started on (from its command line), and the integrity level of a
//! process token.

use vstd::prelude::*;
use crate::text::{chars_of, copy_range, has_infix, lower_text, string_of, to_lowercase, trim, trim_chars};
use crate::path_resolver::{dir_query_path, directory_exists, folder_is_navigable, home_path, is_home_path, navigable_given};
use crate::tabify_engine::opt_view;
use crate::window_controller::{ascii_lower, ascii_lower_char, eq_ignore_ascii_case};

verus! {

/// State of the command-line splitter: the finished parts, the part being
/// read, and whether the reader is inside double quotes.
pub type SplitState = (Seq<Seq<char>>, Seq<char>, bool);

/// One character of the command-line splitter: a `"` toggles quoting and
/// ends the current part, an unquoted space ends the current part, any other
/// character extends it. Empty parts are never recorded.
pub open spec fn split_step(st: SplitState, c: char) -> SplitState {
    let (parts, current, in_quotes) = st;
    if c == '"' {
        if current.len() > 0 {
            (parts.push(current), Seq::empty(), !in_quotes)
        } else {
            (parts, current, !in_quotes)
        }
    } else if c == ' ' && !in_quotes {
        if current.len() > 0 {
            (parts.push(current), Seq::empty(), in_quotes)
        } else {
            (parts, current, in_quotes)
        }
    } else {
        (parts, current.push(c), in_quotes)
    }
}

/// The splitter's state after reading all of `s`.
pub open spec fn split_fold(s: Seq<char>) -> SplitState
    decreases s.len(),
{
    if s.len() == 0 {
        (Seq::empty(), Seq::empty(), false)
    } else {
        split_step(split_fold(s.drop_last()), s.last())
    }
}

/// The parts of a command line: space-separated words, double quotes grouping
/// words that contain spaces.
pub open spec fn command_line_parts(s: Seq<char>) -> Seq<Seq<char>> {
    let (parts, current, _q) = split_fold(s);
    if current.len() > 0 {
        parts.push(current)
    } else {
        parts
    }
}

/// What the splitter keeps at every step: no recorded part is empty, and no
/// part (recorded or being read) holds a double quote.
pub open spec fn split_state_clean(st: SplitState) -> bool {
    &&& forall|k: int| 0 <= k < st.0.len() ==> (#[trigger] st.0[k]).len() > 0 && !st.0[k].contains('"')
    &&& !st.1.contains('"')
}

proof fn lemma_split_fold_clean(s: Seq<char>)
    ensures
        split_state_clean(split_fold(s)),
    decreases s.len(),
{
    if s.len() > 0 {
        lemma_split_fold_clean(s.drop_last());
        let st = split_fold(s.drop_last());
        let c = s.last();
        if c != '"' && !(c == ' ' && !st.2) {
            assert forall|x: char| st.1.push(c).contains(x) implies x != '"' by {
                let k = choose|k: int| 0 <= k < st.1.push(c).len() && st.1.push(c)[k] == x;
                if k < st.1.len() {
                    assert(st.1.contains(st.1[k]));
                }
            }
        }
        assert(!Seq::<char>::empty().contains('"'));
    } else {
        assert(!Seq::<char>::empty().contains('"'));
    }
}

/// Every part of a command line is non-empty and free of double quotes, so
/// trimming quotes off a part changes nothing.
pub proof fn lemma_command_line_parts_clean(s: Seq<char>)
    ensures
        forall|k: int|
            0 <= k < command_line_parts(s).len() ==> (#[trigger] command_line_parts(s)[k]).len() > 0
                && !command_line_parts(s)[k].contains('"'),
{
    lemma_split_fold_clean(s);
}

/// The text of a command-line part that is judged as a folder: the part
/// trimmed, and, when it begins with Explorer's `/select,` switch (in any
/// ASCII case), what follows the switch, trimmed.
pub open spec fn candidate_text(part: Seq<char>) -> Seq<char> {
    let t = trim(part);
    if t.len() >= 8 && eq_ignore_ascii_case(t.subrange(0, 8), "/select,"@) {
        trim(t.skip(8))
    } else {
        t
    }
}

/// Whether the candidate text `c` is taken as the folder, given whether a
/// directory of that name exists: it is not empty, names a navigable folder
/// and is not the home view.
pub open spec fn folder_candidate(c: Seq<char>, dir_exists: bool) -> bool {
    &&& c.len() > 0
    &&& navigable_given(trim(c), lower_text(trim(c)), dir_exists)
    &&& !home_path(c)
}

/// Whether `r` is the folder chosen among `parts`, given for each part
/// whether a directory of its candidate text exists: the candidate text of
/// the first part that qualifies, or none when no part does.
pub open spec fn folder_chosen(parts: Seq<Seq<char>>, dir_exists: Seq<bool>, r: Option<Seq<char>>) -> bool {
    match r {
        Some(v) => exists|k: int|
            0 <= k < parts.len() && v == candidate_text(#[trigger] parts[k]) && folder_candidate(
                v,
                dir_exists[k],
            ) && forall|j: int|
                0 <= j < k ==> !folder_candidate(candidate_text(#[trigger] parts[j]), dir_exists[j]),
        None => forall|k: int|
            0 <= k < parts.len() ==> !folder_candidate(candidate_text(#[trigger] parts[k]), dir_exists[k]),
    }
}

/// The texts of a list of strings.
pub open spec fn views(parts: Seq<String>) -> Seq<Seq<char>> {
    parts.map_values(|p: String| p@)
}

/// Splits a command line into its parts.
pub fn split_command_line(cmd_line: &str) -> (r: Vec<String>)
    ensures
        r@.len() == command_line_parts(cmd_line@).len(),
        forall|k: int| 0 <= k < r@.len() ==> #[trigger] r@[k]@ == command_line_parts(cmd_line@)[k],
{
    let cs = chars_of(cmd_line);
    let mut parts: Vec<String> = Vec::new();
    let mut current: Vec<char> = Vec::new();
    let mut in_quotes = false;
    let mut i: usize = 0;
    while i < cs.len()
        invariant
            i <= cs.len(),
            cs@ == cmd_line@,
            ({
                let st = split_fold(cs@.subrange(0, i as int));
                &&& parts@.len() == st.0.len()
                &&& forall|k: int| 0 <= k < parts@.len() ==> #[trigger] parts@[k]@ == st.0[k]
                &&& current@ == st.1
                &&& in_quotes == st.2
            }),
        decreases cs.len() - i,
    {
        let c = cs[i];
        proof {
            assert(cs@.subrange(0, i + 1).drop_last() =~= cs@.subrange(0, i as int));
        }
        if c == '"' {
            in_quotes = !in_quotes;
            if current.len() > 0 {
                parts.push(string_of(&current));
                current = Vec::new();
            }
        } else if c == ' ' && !in_quotes {
            if current.len() > 0 {
                parts.push(string_of(&current));
                current = Vec::new();
            }
        } else {
            current.push(c);
        }
        i = i + 1;
    }
    proof {
        assert(cs@.subrange(0, cs.len() as int) =~= cs@);
    }
    if current.len() > 0 {
        parts.push(string_of(&current));
    }
    parts
}

/// The candidate text of one command-line part.
pub fn candidate_of(part: &str) -> (r: String)
    ensures
        r@ == candidate_text(part@),
{
    let t = trim_chars(&chars_of(part));
    let sw = chars_of("/select,");
    proof {
        reveal_strlit("/select,");
    }
    if t.len() >= 8 {
        let mut same = true;
        let mut i: usize = 0;
        while i < 8
            invariant
                i <= 8,
                t.len() >= 8,
                sw@ == "/select,"@,
                sw@.len() == 8,
                same == forall|k: int| 0 <= k < i ==> ascii_lower(#[trigger] t@[k]) == ascii_lower(sw@[k]),
            decreases 8 - i,
        {
            if ascii_lower_char(t[i]) != ascii_lower_char(sw[i]) {
                same = false;
            }
            i = i + 1;
        }
        proof {
            assert(same == eq_ignore_ascii_case(t@.subrange(0, 8), "/select,"@)) by {
                if same {
                    assert forall|k: int| 0 <= k < 8 implies ascii_lower(#[trigger] t@.subrange(0, 8)[k])
                        == ascii_lower("/select,"@[k]) by {
                        assert(t@.subrange(0, 8)[k] == t@[k]);
                    }
                } else {
                    let k = choose|k: int| 0 <= k < 8 && !(ascii_lower(#[trigger] t@[k]) == ascii_lower(sw@[k]));
                    assert(t@.subrange(0, 8)[k] == t@[k]);
                }
            }
        }
        if same {
            let rest = copy_range(&t, 8, t.len());
            proof {
                assert(rest@ =~= t@.skip(8));
            }
            return string_of(&trim_chars(&rest));
        }
    }
    string_of(&t)
}

/// The folder chosen among command-line parts, given for each part whether
/// a directory named by its candidate text exists: the candidate text of the
/// first part that is not empty, names a navigable folder and is not the
/// home view.
pub fn folder_from_parts(parts: &Vec<String>, dir_exists: &Vec<bool>) -> (r: Option<String>)
    requires
        parts@.len() == dir_exists@.len(),
    ensures
        folder_chosen(views(parts@), dir_exists@, opt_view(r)),
{
    let ghost ps = views(parts@);
    let mut i: usize = 0;
    while i < parts.len()
        invariant
            i <= parts.len(),
            parts@.len() == dir_exists@.len(),
            ps == views(parts@),
            forall|j: int| 0 <= j < i ==> !folder_candidate(candidate_text(#[trigger] ps[j]), dir_exists@[j]),
        decreases parts.len() - i,
    {
        let c = candidate_of(parts[i].as_str());
        assert(ps[i as int] == parts@[i as int]@);
        let t = string_of(&trim_chars(&chars_of(c.as_str())));
        let lowered = to_lowercase(t.as_str());
        if c.unicode_len() > 0 && folder_is_navigable(t.as_str(), lowered.as_str(), dir_exists[i])
            && !is_home_path(c.as_str()) {
            proof {
                assert(folder_candidate(c@, dir_exists@[i as int]));
                assert(opt_view(Some(c)) == Some(c@));
            }
            return Some(c);
        }
        i = i + 1;
    }
    None
}

/// The folder an Explorer command line was started on: the candidate text
/// (see `candidate_text`) of the first part that is not empty, is a navigable
/// folder and is not the home view. The parts are judged in order and the
/// first that qualifies ends the search; the file system is asked only about
/// the path that `dir_query_path` gives for a part (none for an empty part,
/// a UNC path or the system drive root). The result is `folder_from_parts`
/// for the answers it gave, which the contract does not know. So: the result
/// is the choice for some list of answers; the folder
/// returned qualifies at least where a directory is granted to exist and
/// every earlier part fails even where none is; and the result is `None`
/// only when no part qualifies without a directory.
pub fn extract_folder_from_cmdline(cmd_line: &str) -> (r: Option<String>)
    ensures
        exists|answers: Seq<bool>|
            answers.len() == command_line_parts(cmd_line@).len() && folder_chosen(
                command_line_parts(cmd_line@),
                answers,
                opt_view(r),
            ),
        r matches Some(v) ==> exists|k: int|
            0 <= k < command_line_parts(cmd_line@).len() && v@ == candidate_text(
                #[trigger] command_line_parts(cmd_line@)[k],
            ) && folder_candidate(v@, true) && forall|j: int|
                0 <= j < k ==> !folder_candidate(candidate_text(command_line_parts(cmd_line@)[j]), false),
        r is None ==> forall|k: int|
            0 <= k < command_line_parts(cmd_line@).len() ==> !folder_candidate(
                candidate_text(#[trigger] command_line_parts(cmd_line@)[k]),
                false,
            ),
{
    let parts = split_command_line(cmd_line);
    let ghost ps = command_line_parts(cmd_line@);
    let ghost mut answers: Seq<bool> = Seq::empty();
    let mut i: usize = 0;
    proof {
        assert(views(parts@) =~= ps);
    }
    while i < parts.len()
        invariant
            i <= parts.len(),
            parts@.len() == ps.len(),
            ps == command_line_parts(cmd_line@),
            views(parts@) == ps,
            answers.len() == i,
            forall|j: int| 0 <= j < i ==> !folder_candidate(candidate_text(#[trigger] ps[j]), answers[j]),
        decreases parts.len() - i,
    {
        let c = candidate_of(parts[i].as_str());
        assert(ps[i as int] == parts@[i as int]@);
        let d = match dir_query_path(c.as_str()) {
            Some(q) => directory_exists(q.as_str()),
            None => false,
        };
        let t = string_of(&trim_chars(&chars_of(c.as_str())));
        let lowered = to_lowercase(t.as_str());
        if c.unicode_len() > 0 && folder_is_navigable(t.as_str(), lowered.as_str(), d) && !is_home_path(
            c.as_str(),
        ) {
            proof {
                let full = Seq::new(ps.len(), |j: int| if j < i { answers[j] } else { d });
                assert(folder_candidate(c@, full[i as int]));
                assert(forall|j: int| 0 <= j < i ==> full[j] == answers[j]);
                assert(folder_chosen(ps, full, opt_view(Some(c))));
                lemma_chosen_bounds(ps, full, opt_view(Some(c)));
            }
            return Some(c);
        }
        proof {
            answers = answers.push(d);
        }
        i = i + 1;
    }
    proof {
        assert(folder_chosen(ps, answers, opt_view(None::<String>)));
        lemma_chosen_bounds(ps, answers, opt_view(None::<String>));
    }
    None
}

/// Whether a directory exists only widens what qualifies as a folder.
proof fn lemma_candidate_monotone(c: Seq<char>, d: bool)
    ensures
        folder_candidate(c, false) ==> folder_candidate(c, d),
        folder_candidate(c, d) ==> folder_candidate(c, true),
{
}

/// A choice made with some answers of the file system lies between the
/// choices made with no directory and with every directory granted.
proof fn lemma_chosen_bounds(ps: Seq<Seq<char>>, answers: Seq<bool>, r: Option<Seq<char>>)
    requires
        answers.len() == ps.len(),
        folder_chosen(ps, answers, r),
    ensures
        r matches Some(v) ==> exists|k: int|
            0 <= k < ps.len() && v == candidate_text(#[trigger] ps[k]) && folder_candidate(v, true)
                && forall|j: int| 0 <= j < k ==> !folder_candidate(candidate_text(ps[j]), false),
        r is None ==> forall|k: int|
            0 <= k < ps.len() ==> !folder_candidate(candidate_text(#[trigger] ps[k]), false),
{
    match r {
        Some(v) => {
            let k = choose|k: int|
                0 <= k < ps.len() && v == candidate_text(#[trigger] ps[k]) && folder_candidate(v, answers[k])
                    && forall|j: int| 0 <= j < k ==> !folder_candidate(candidate_text(#[trigger] ps[j]), answers[j]);
            lemma_candidate_monotone(v, answers[k]);
            assert forall|j: int| 0 <= j < k implies !folder_candidate(candidate_text(ps[j]), false) by {
                lemma_candidate_monotone(candidate_text(ps[j]), answers[j]);
            }
        },
        None => {
            assert forall|k: int| 0 <= k < ps.len() implies !folder_candidate(candidate_text(#[trigger] ps[k]), false) by {
                lemma_candidate_monotone(candidate_text(ps[k]), answers[k]);
            }
        },
    }
}

/// Integrity levels of process tokens (the mandatory-label RIDs of Windows).
pub const SECURITY_MANDATORY_UNTRUSTED_RID: u32 = 0x0000;
/// Low integrity.
pub const SECURITY_MANDATORY_LOW_RID: u32 = 0x1000;
/// Medium integrity.
pub const SECURITY_MANDATORY_MEDIUM_RID: u32 = 0x2000;
/// Medium-plus integrity.
pub const SECURITY_MANDATORY_MEDIUM_PLUS_RID: u32 = 0x2100;
/// High integrity.
pub const SECURITY_MANDATORY_HIGH_RID: u32 = 0x3000;
/// System integrity.
pub const SECURITY_MANDATORY_SYSTEM_RID: u32 = 0x4000;

/// The label of an integrity RID.
pub open spec fn integrity_label(rid: u32) -> Seq<char> {
    if rid < SECURITY_MANDATORY_UNTRUSTED_RID {
        "below-untrusted"@
    } else if rid < SECURITY_MANDATORY_LOW_RID {
        "untrusted"@
    } else if rid < SECURITY_MANDATORY_MEDIUM_RID {
        "low"@
    } else if rid == SECURITY_MANDATORY_MEDIUM_PLUS_RID {
        "medium+"@
    } else if rid < SECURITY_MANDATORY_HIGH_RID {
        "medium"@
    } else if rid < SECURITY_MANDATORY_SYSTEM_RID {
        "high"@
    } else if rid == SECURITY_MANDATORY_SYSTEM_RID {
        "system"@
    } else {
        "protected-or-higher"@
    }
}

/// The label of an integrity RID: the level below which it falls, with the
/// exact medium-plus and system RIDs named on their own.
pub fn integrity_label_from_rid(rid: u32) -> (r: &'static str)
    ensures
        r@ == integrity_label(rid),
{
    if rid < SECURITY_MANDATORY_UNTRUSTED_RID {
        "below-untrusted"
    } else if rid < SECURITY_MANDATORY_LOW_RID {
        "untrusted"
    } else if rid < SECURITY_MANDATORY_MEDIUM_RID {
        "low"
    } else if rid == SECURITY_MANDATORY_MEDIUM_PLUS_RID {
        "medium+"
    } else if rid < SECURITY_MANDATORY_HIGH_RID {
        "medium"
    } else if rid < SECURITY_MANDATORY_SYSTEM_RID {
        "high"
    } else if rid == SECURITY_MANDATORY_SYSTEM_RID {
        "system"
    } else {
        "protected-or-higher"
    }
}

/// The security context of the running process.
pub struct ProcessSecurityContext {
    pub elevated: bool,
    pub integrity_rid: u32,
    pub integrity_label: &'static str,
}

/// The context read from a token: elevated when the token's elevation flag
/// is non-zero, labelled by its integrity RID.
pub fn security_context_from_token(token_is_elevated: u32, rid: u32) -> (r: ProcessSecurityContext)
    ensures
        r.elevated == (token_is_elevated != 0),
        r.integrity_rid == rid,
        r.integrity_label@ == integrity_label(rid),
{
    ProcessSecurityContext {
        elevated: token_is_elevated != 0,
        integrity_rid: rid,
        integrity_label: integrity_label_from_rid(rid),
    }
}

/// What the start-up check warns about for a security context.
pub enum IntegrityConcern {
    /// Low, untrusted or below: message filters and the tray icon may be refused.
    LowTrust,
    /// High, system or above: UIPI may refuse messages from Explorer.
    HighPrivilege,
    /// The expected medium level.
    Usual,
}

/// The concern that a label raises.
pub open spec fn concern_of(label: Seq<char>) -> IntegrityConcern {
    if label == "low"@ || label == "untrusted"@ || label == "below-untrusted"@ {
        IntegrityConcern::LowTrust
    } else if label == "high"@ || label == "system"@ || label == "protected-or-higher"@ {
        IntegrityConcern::HighPrivilege
    } else {
        IntegrityConcern::Usual
    }
}

/// The concern that a security context raises about its integrity level.
pub fn integrity_concern(ctx: &ProcessSecurityContext) -> (r: IntegrityConcern)
    ensures
        r == concern_of(ctx.integrity_label@),
{
    let l = chars_of(ctx.integrity_label);
    if crate::text::chars_eq(&l, &chars_of("low")) || crate::text::chars_eq(&l, &chars_of("untrusted"))
        || crate::text::chars_eq(&l, &chars_of("below-untrusted")) {
        IntegrityConcern::LowTrust
    } else if crate::text::chars_eq(&l, &chars_of("high")) || crate::text::chars_eq(
        &l,
        &chars_of("system"),
    ) || crate::text::chars_eq(&l, &chars_of("protected-or-higher")) {
        IntegrityConcern::HighPrivilege
    } else {
        IntegrityConcern::Usual
    }
}

/// The number of UTF-16 units in a process's command line, given the
/// `UNICODE_STRING` read from its parameters: none when its buffer is null
/// or its byte length is 0, else half the byte length.
pub fn command_line_units(length_bytes: u16, buffer_is_null: bool) -> (r: Option<usize>)
    ensures
        r == (if buffer_is_null || length_bytes == 0 {
            None
        } else {
            Some((length_bytes / 2) as usize)
        }),
{
    if buffer_is_null || length_bytes == 0 {
        None
    } else {
        Some((length_bytes / 2) as usize)
    }
}

/// Why the integrity level of a token could not be read.
#[derive(Clone, Copy, PartialEq, Eq, Structural, Debug)]
pub enum IntegrityReadError {
    /// The token's integrity information needs a zero-length buffer.
    EmptyBuffer,
    /// The label has no SID.
    NullSid,
    /// The SID has no sub-authorities.
    NoSubAuthority,
}

/// Which sub-authority of the label's SID holds the integrity RID: the last
/// one; an error when the integrity information is empty, the SID is null,
/// or it has no sub-authorities.
pub fn integrity_rid_index(needed_len: u32, sid_is_null: bool, sub_authority_count: u8) -> (r: Result<u32, IntegrityReadError>)
    ensures
        needed_len == 0 ==> r == Err::<u32, IntegrityReadError>(IntegrityReadError::EmptyBuffer),
        needed_len != 0 && sid_is_null ==> r == Err::<u32, IntegrityReadError>(IntegrityReadError::NullSid),
        needed_len != 0 && !sid_is_null && sub_authority_count == 0 ==> r == Err::<u32, IntegrityReadError>(
            IntegrityReadError::NoSubAuthority,
        ),
        needed_len != 0 && !sid_is_null && sub_authority_count != 0 ==> r == Ok::<u32, IntegrityReadError>(
            (sub_authority_count - 1) as u32,
        ),
{
    if needed_len == 0 {
        return Err(IntegrityReadError::EmptyBuffer);
    }
    if sid_is_null {
        return Err(IntegrityReadError::NullSid);
    }
    if sub_authority_count == 0 {
        return Err(IntegrityReadError::NoSubAuthority);
    }
    Ok((sub_authority_count - 1) as u32)
}

/// Whether a running process is an earlier instance of this program: its
/// executable name, lower-cased, mentions `tabify_explorer` or
/// `tabifyexplorer`, and it is not this process.
pub open spec fn is_previous_instance_spec(exe_name: Seq<char>, pid: u32, current_pid: u32) -> bool {
    (has_infix(lower_text(exe_name), "tabify_explorer"@) || has_infix(
        lower_text(exe_name),
        "tabifyexplorer"@,
    )) && pid != current_pid
}

/// Whether a running process is an earlier instance of this program, to be
/// ended before this one takes over.
pub fn is_previous_instance(exe_name: &str, pid: u32, current_pid: u32) -> (r: bool)
    ensures
        r == is_previous_instance_spec(exe_name@, pid, current_pid),
{
    let lowered = chars_of(crate::text::to_lowercase(exe_name).as_str());
    (crate::text::contains(&lowered, &chars_of("tabify_explorer")) || crate::text::contains(
        &lowered,
        &chars_of("tabifyexplorer"),
    )) && pid != current_pid
}

/// The length of a 0-terminated UTF-16 buffer: the position of the first 0,
/// or the whole buffer when there is none.
pub fn nul_terminated_len(buf: &Vec<u16>) -> (r: usize)
    ensures
        r <= buf@.len(),
        forall|k: int| 0 <= k < r ==> buf@[k] != 0,
        r < buf@.len() ==> buf@[r as int] == 0,
{
    let mut i: usize = 0;
    while i < buf.len()
        invariant
            i <= buf.len(),
            forall|k: int| 0 <= k < i ==> buf@[k] != 0,
        decreases buf.len() - i,
    {
        if buf[i] == 0 {
            return i;
        }
        i = i + 1;
    }
    i
}

} // verus!
