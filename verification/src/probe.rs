//! Version probe: turns what the shell observed of the published executable
//! into the current-version answer. The executable's self-reported output
//! carries the version as the second whitespace-delimited field of its first
//! line (the first field being the program-name token); a missing executable
//! is the legitimate "none installed" state, not an error.
use vstd::prelude::*;

use crate::errors::VmError;

verus! {

/// The whitespace characters that delimit fields of the report line.
pub open spec fn is_ws(c: char) -> bool {
    c == ' ' || c == '\t' || c == '\n' || c == '\r' || c == '\u{b}' || c == '\u{c}'
}

/// The index of the first line's end: the first newline, or the text's end.
pub open spec fn line_end(s: Seq<char>, i: int) -> int
    decreases s.len() - i,
{
    if i < 0 || i >= s.len() {
        s.len() as int
    } else if s[i] == '\n' {
        i
    } else {
        line_end(s, i + 1)
    }
}

/// The first index at or after `i`, below `e`, holding a non-whitespace
/// character; `e` if there is none.
pub open spec fn skip_ws(s: Seq<char>, i: int, e: int) -> int
    decreases e - i,
{
    if 0 <= i < e && i < s.len() && is_ws(s[i]) {
        skip_ws(s, i + 1, e)
    } else {
        i
    }
}

/// The first index at or after `i`, below `e`, holding a whitespace
/// character; `e` if there is none.
pub open spec fn skip_field(s: Seq<char>, i: int, e: int) -> int
    decreases e - i,
{
    if 0 <= i < e && i < s.len() && !is_ws(s[i]) {
        skip_field(s, i + 1, e)
    } else {
        i
    }
}

/// The second whitespace-delimited field of the first line of `s`, if the
/// line has one.
pub open spec fn spec_second_field(s: Seq<char>) -> Option<Seq<char>> {
    let e = line_end(s, 0);
    let a1 = skip_ws(s, 0, e);
    let b1 = skip_field(s, a1, e);
    let a2 = skip_ws(s, b1, e);
    let b2 = skip_field(s, a2, e);
    if a2 >= e {
        Option::None
    } else {
        Option::Some(s.subrange(a2, b2))
    }
}

fn is_ws_char(c: char) -> (b: bool)
    ensures
        b == is_ws(c),
{
    c == ' ' || c == '\t' || c == '\n' || c == '\r' || c == '\u{b}' || c == '\u{c}'
}

/// Extracts the version token from the probe's report: the second
/// whitespace-delimited field of the first line, or nothing when that line
/// has no second field.
pub fn parse_version(out: &str) -> (r: Option<String>)
    ensures
        (match spec_second_field(out@) {
            Option::Some(t) => r matches Some(v) && v@ == t,
            Option::None => r is None,
        }),
{
    let n = out.unicode_len();
    let mut e: usize = 0;
    while e < n && out.get_char(e) != '\n'
        invariant
            n == out@.len(),
            0 <= e <= n,
            line_end(out@, 0) == line_end(out@, e as int),
        decreases n - e,
    {
        e += 1;
    }
    let a1 = skip_ws_exec(out, 0, e);
    let b1 = skip_field_exec(out, a1, e);
    let a2 = skip_ws_exec(out, b1, e);
    let b2 = skip_field_exec(out, a2, e);
    if a2 >= e {
        None
    } else {
        Some(String::from_str(out.substring_char(a2, b2)))
    }
}

fn skip_ws_exec(s: &str, i: usize, e: usize) -> (r: usize)
    requires
        0 <= i <= e <= s@.len(),
    ensures
        i <= r <= e,
        r as int == skip_ws(s@, i as int, e as int),
{
    let mut j = i;
    while j < e && is_ws_char(s.get_char(j))
        invariant
            0 <= i <= j <= e <= s@.len(),
            skip_ws(s@, i as int, e as int) == skip_ws(s@, j as int, e as int),
        decreases e - j,
    {
        j += 1;
    }
    j
}

fn skip_field_exec(s: &str, i: usize, e: usize) -> (r: usize)
    requires
        0 <= i <= e <= s@.len(),
    ensures
        i <= r <= e,
        r as int == skip_field(s@, i as int, e as int),
{
    let mut j = i;
    while j < e && !is_ws_char(s.get_char(j))
        invariant
            0 <= i <= j <= e <= s@.len(),
            skip_field(s@, i as int, e as int) == skip_field(s@, j as int, e as int),
        decreases e - j,
    {
        j += 1;
    }
    j
}

/// What the shell observed when probing the published executable.
pub enum ProbeInput {
    /// No executable stands at the probed path: nothing is installed.
    NoExecutable,
    /// The executable ran and its standard output decoded as text.
    Output(String),
    /// The executable could not be run, or its output was not text.
    Failed,
}

/// The current-version answer: the sentinel for a missing executable (a
/// success, not an error), the report's second field when the executable
/// spoke, and a probe failure otherwise.
pub open spec fn is_current_result(r: Result<String, VmError>, probe: ProbeInput) -> bool {
    match probe {
        ProbeInput::NoExecutable => r matches Ok(v) && v@ == "None"@,
        ProbeInput::Output(out) => (match spec_second_field(out@) {
            Option::Some(t) => r matches Ok(v) && v@ == t,
            Option::None => r matches Err(e) && e is ProbeFailed,
        }),
        ProbeInput::Failed => r matches Err(e) && e is ProbeFailed,
    }
}

pub fn current(probe: ProbeInput) -> (r: Result<String, VmError>)
    ensures
        is_current_result(r, probe),
{
    match probe {
        ProbeInput::NoExecutable => Ok(String::from_str("None")),
        ProbeInput::Output(out) => {
            match parse_version(out.as_str()) {
                Some(v) => Ok(v),
                None => Err(VmError::ProbeFailed),
            }
        },
        ProbeInput::Failed => Err(VmError::ProbeFailed),
    }
}

/// Probe sentinel: with no active executable, the current version is the
/// "None" sentinel — a successful answer, distinct from a probe failure.
pub proof fn lemma_probe_sentinel(r: Result<String, VmError>)
    requires
        is_current_result(r, ProbeInput::NoExecutable),
    ensures
        r matches Ok(v) && v@ == "None"@,
{
}

} // verus!
