//! The lines of the log file.

use vstd::prelude::*;
use crate::config::Config;
use crate::text::{chars_of, concat, string_of};

verus! {

/// The decimal digit for `d` (0 to 9).
pub open spec fn digit_char(d: nat) -> char {
    ((0x30 + d) as u32) as char
}

/// The decimal text of `n`, without leading zeros.
pub open spec fn decimal(n: nat) -> Seq<char>
    decreases n,
{
    if n < 10 {
        seq![digit_char(n)]
    } else {
        decimal(n / 10).push(digit_char(n % 10))
    }
}

/// The log line for a message: `[seconds] [level] message` and a line break.
pub open spec fn log_line(now_secs: u64, level: Seq<char>, msg: Seq<char>) -> Seq<char> {
    "["@ + decimal(now_secs as nat) + "] ["@ + level + "] "@ + msg + "\n"@
}

/// The digit character for `d` (below 10).
fn digit_of(d: u64) -> (r: char)
    requires
        d < 10,
    ensures
        r == digit_char(d as nat),
{
    let b = (d as u8) + 0x30;
    b as char
}

/// The decimal text of `n`.
pub fn decimal_chars(n: u64) -> (r: Vec<char>)
    ensures
        r@ == decimal(n as nat),
    decreases n,
{
    if n < 10 {
        let mut v = Vec::new();
        v.push(digit_of(n));
        proof {
            assert(v@ =~= seq![digit_char(n as nat)]);
        }
        v
    } else {
        let mut v = decimal_chars(n / 10);
        v.push(digit_of(n % 10));
        v
    }
}

/// The line to append to the log file for a message at `now_secs` (seconds
/// since the Unix epoch), or `None` when logging is off.
pub fn log_msg(config: &Config, now_secs: u64, level: &str, msg: &str) -> (r: Option<String>)
    ensures
        !config.enable_log ==> r is None,
        config.enable_log ==> (r matches Some(l) && l@ == log_line(now_secs, level@, msg@)),
{
    if !config.enable_log {
        return None;
    }
    let mut t = chars_of("[");
    t = concat(&t, &decimal_chars(now_secs));
    t = concat(&t, &chars_of("] ["));
    t = concat(&t, &chars_of(level));
    t = concat(&t, &chars_of("] "));
    t = concat(&t, &chars_of(msg));
    t = concat(&t, &chars_of("\n"));
    Some(string_of(&t))
}

} // verus!
