//! Token detection: parsing the output of the token-management tool's
//! listing command.
//!
//! The listing is split into lines at each newline, whatever the line ending:
//! a single carriage return at the end of a line is not content, and a line
//! without content does not count.  No line means no token is attached
//! (retryable), more than one line means the target is ambiguous (fatal).
//! With exactly one line, the serial number is the whitespace-delimited token
//! that follows the first `"Serial:"` token of the output.

use vstd::prelude::*;
use vstd::string::StrSliceExecFns;
use vstd::string::StringExecFns;

use crate::error::WorkerError;
use crate::text::is_whitespace_char;
use crate::text::is_ws;

verus! {

/// Number of non-empty lines in `s[i..]`, with `i` standing at a line start.
/// Lines are separated by `'\n'`; a line whose whole content is a single
/// `'\r'` (the rest of a `"\r\n"` ending) is empty.
pub open spec fn nonempty_lines_at(s: Seq<char>, i: int) -> nat
    decreases s.len() - i, 1int,
{
    if i >= s.len() {
        0
    } else if s[i] == '\n' {
        nonempty_lines_at(s, i + 1)
    } else if s[i] == '\r' && i + 1 >= s.len() {
        0
    } else if s[i] == '\r' && s[i + 1] == '\n' {
        nonempty_lines_at(s, i + 2)
    } else {
        1 + rest_lines_at(s, i + 1)
    }
}

/// Number of non-empty lines after the line that position `i` is inside.
pub open spec fn rest_lines_at(s: Seq<char>, i: int) -> nat
    decreases s.len() - i, 0int,
{
    if i >= s.len() {
        0
    } else if s[i] == '\n' {
        nonempty_lines_at(s, i + 1)
    } else {
        rest_lines_at(s, i + 1)
    }
}

/// Number of non-empty lines of the whole output, under any line ending.
pub open spec fn nonempty_line_count(s: Seq<char>) -> nat {
    nonempty_lines_at(s, 0)
}

/// The field label that precedes the serial number in the listing.
pub open spec fn serial_label() -> Seq<char> {
    seq!['S', 'e', 'r', 'i', 'a', 'l', ':']
}

/// The label stands at position `i` as a whitespace-delimited token.
pub open spec fn label_at(s: Seq<char>, i: int) -> bool {
    &&& 0 <= i
    &&& i + 7 <= s.len()
    &&& s.subrange(i, i + 7) == serial_label()
    &&& (i == 0 || is_ws(s[i - 1]))
    &&& (i + 7 == s.len() || is_ws(s[i + 7]))
}

/// Position of the first label token at or after `i`, or `s.len()` when none.
pub open spec fn find_label_from(s: Seq<char>, i: int) -> int
    decreases s.len() - i,
{
    if i >= s.len() {
        s.len() as int
    } else if label_at(s, i) {
        i
    } else {
        find_label_from(s, i + 1)
    }
}

/// First position at or after `i` that holds a non-whitespace character.
pub open spec fn skip_ws_from(s: Seq<char>, i: int) -> int
    decreases s.len() - i,
{
    if i >= s.len() {
        s.len() as int
    } else if is_ws(s[i]) {
        skip_ws_from(s, i + 1)
    } else {
        i
    }
}

/// First position at or after `i` that holds a whitespace character.
pub open spec fn token_end_from(s: Seq<char>, i: int) -> int
    decreases s.len() - i,
{
    if i >= s.len() {
        s.len() as int
    } else if is_ws(s[i]) {
        i
    } else {
        token_end_from(s, i + 1)
    }
}

/// The serial number: the whitespace-delimited token that follows the first
/// label token, when both exist.
pub open spec fn serial_in(s: Seq<char>) -> Option<Seq<char>> {
    let l = find_label_from(s, 0);
    if l == s.len() {
        None
    } else {
        let start = skip_ws_from(s, l + 7);
        if start == s.len() {
            None
        } else {
            Some(s.subrange(start, token_end_from(s, start)))
        }
    }
}

/// What `check_card` returns for a given listing output.
pub open spec fn detect_spec(s: Seq<char>) -> Result<Seq<char>, WorkerError> {
    let n = nonempty_line_count(s);
    if n == 0 {
        Err(WorkerError::NoKeysFound)
    } else if n != 1 {
        Err(WorkerError::MultipleKeysPresent)
    } else {
        match serial_in(s) {
            Some(t) => Ok(t),
            None => Err(WorkerError::SerialNotFound),
        }
    }
}

/// The label token stands at position `j` of `s`.
fn is_label_at(s: &str, j: usize, n: usize) -> (r: bool)
    requires
        n == s@.len(),
        j < n,
    ensures
        r == label_at(s@, j as int),
{
    if n - j < 7 {
        return false;
    }
    let chars_ok = s.get_char(j) == 'S' && s.get_char(j + 1) == 'e' && s.get_char(j + 2) == 'r'
        && s.get_char(j + 3) == 'i' && s.get_char(j + 4) == 'a' && s.get_char(j + 5) == 'l'
        && s.get_char(j + 6) == ':';
    if !chars_ok {
        proof {
            if s@.subrange(j as int, j as int + 7) == serial_label() {
                assert(forall|k: int|
                    0 <= k < 7 ==> s@.subrange(j as int, j as int + 7)[k] == serial_label()[k]);
            }
        }
        return false;
    }
    proof {
        assert(s@.subrange(j as int, j as int + 7) =~= serial_label());
    }
    let prev_ok = j == 0 || is_whitespace_char(s.get_char(j - 1));
    let next_ok = j + 7 == n || is_whitespace_char(s.get_char(j + 7));
    prev_ok && next_ok
}

/// Classifies a token-listing output and extracts the serial number.
///
/// With zero non-empty lines no token is attached; with two or more, the
/// target is ambiguous and the run must not guess; with exactly one line, the
/// serial is the token after the first `"Serial:"` field, whose absence means
/// the tool's output had an unexpected shape.
pub fn check_card(output: &str) -> (r: Result<String, WorkerError>)
    ensures
        (r is Ok) == (detect_spec(output@) is Ok),
        r is Ok ==> r->Ok_0@ == detect_spec(output@)->Ok_0,
        r is Err ==> r->Err_0 == detect_spec(output@)->Err_0,
{
    let n = output.unicode_len();

    // Count the non-empty lines.
    let mut count: usize = 0;
    let mut i: usize = 0;
    let mut at_start: bool = true;
    while i < n
        invariant
            i <= n,
            n == output@.len(),
            count <= i,
            at_start ==> count + nonempty_lines_at(output@, i as int) == nonempty_line_count(
                output@,
            ),
            !at_start ==> count + rest_lines_at(output@, i as int) == nonempty_line_count(output@),
        decreases n - i,
    {
        let c = output.get_char(i);
        if at_start {
            if c == '\n' {
                i += 1;
            } else if c == '\r' && i + 1 == n {
                i = n;
            } else if c == '\r' && output.get_char(i + 1) == '\n' {
                i += 2;
            } else {
                count += 1;
                i += 1;
                at_start = false;
            }
        } else {
            if c == '\n' {
                at_start = true;
            }
            i += 1;
        }
    }
    if count == 0 {
        return Err(WorkerError::NoKeysFound);
    }
    if count != 1 {
        return Err(WorkerError::MultipleKeysPresent);
    }

    // Find the first "Serial:" token.
    let mut j: usize = 0;
    while j < n && !is_label_at(output, j, n)
        invariant
            j <= n,
            n == output@.len(),
            find_label_from(output@, 0) == find_label_from(output@, j as int),
        decreases n - j,
    {
        j += 1;
    }
    if j == n {
        return Err(WorkerError::SerialNotFound);
    }

    // Skip the whitespace after the label.
    let mut k: usize = j + 7;
    while k < n && is_whitespace_char(output.get_char(k))
        invariant
            j + 7 <= k <= n,
            n == output@.len(),
            skip_ws_from(output@, j as int + 7) == skip_ws_from(output@, k as int),
        decreases n - k,
    {
        k += 1;
    }
    if k == n {
        return Err(WorkerError::SerialNotFound);
    }

    // Take the serial token itself.
    let mut e: usize = k;
    while e < n && !is_whitespace_char(output.get_char(e))
        invariant
            k <= e <= n,
            n == output@.len(),
            token_end_from(output@, k as int) == token_end_from(output@, e as int),
        decreases n - e,
    {
        e += 1;
    }
    let tok = output.substring_char(k, e);
    Ok(String::from_str(tok))
}

} // verus!
