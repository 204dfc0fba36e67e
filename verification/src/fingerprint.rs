//! Fingerprint extraction from the key-management tool's key-listing output.
//!
//! The listing is split into lines at each newline, whatever the line ending;
//! a line whose whole content is a single carriage return is dropped as
//! empty.  Each kept line is trimmed and stripped of its remaining spaces.
//! The fingerprint is the line after the first one that starts with `"pub"`.

use vstd::prelude::*;
use vstd::string::StrSliceExecFns;
use vstd::string::StringExecFns;

use crate::detect::skip_ws_from;
use crate::error::WorkerError;
use crate::text::is_whitespace_char;
use crate::text::is_ws;
use crate::text::push_char;

verus! {

/// End of the whitespace run that finishes `l[..j]`: the least bound below
/// `j` with no whitespace character between it and `j`.
pub open spec fn rtrim_from(l: Seq<char>, j: int) -> int
    decreases j,
{
    if j <= 0 {
        0
    } else if 0 <= j - 1 < l.len() && is_ws(l[j - 1]) {
        rtrim_from(l, j - 1)
    } else {
        j
    }
}

/// The line with leading and trailing whitespace removed.
pub open spec fn trim_spec(l: Seq<char>) -> Seq<char> {
    let a = skip_ws_from(l, 0);
    let b = rtrim_from(l, l.len() as int);
    if a <= b {
        l.subrange(a, b)
    } else {
        Seq::empty()
    }
}

/// The line with every space character removed.
pub open spec fn despace(l: Seq<char>) -> Seq<char>
    decreases l.len(),
{
    if l.len() == 0 {
        Seq::empty()
    } else if l[0] == ' ' {
        despace(l.drop_first())
    } else {
        seq![l[0]] + despace(l.drop_first())
    }
}

/// What each non-empty raw line becomes: trimmed, then space-free.
pub open spec fn transformed(l: Seq<char>) -> Seq<char> {
    despace(trim_spec(l))
}

/// A raw line counts once a single trailing carriage return is dropped:
/// anything but the empty chunk and the lone `'\r'` of a `"\r\n"` ending.
pub open spec fn line_kept(cur: Seq<char>) -> bool {
    cur.len() > 1 || (cur.len() == 1 && cur[0] != '\r')
}

/// The transformed non-empty lines of `s[i..]`, with `cur` holding the raw
/// line content read so far.  Lines are separated by `'\n'`.
pub open spec fn lines_tf_acc(s: Seq<char>, i: int, cur: Seq<char>) -> Seq<Seq<char>>
    decreases s.len() - i,
{
    if i >= s.len() {
        if line_kept(cur) {
            seq![transformed(cur)]
        } else {
            Seq::empty()
        }
    } else if s[i] == '\n' {
        if line_kept(cur) {
            seq![transformed(cur)] + lines_tf_acc(s, i + 1, Seq::empty())
        } else {
            lines_tf_acc(s, i + 1, Seq::empty())
        }
    } else {
        lines_tf_acc(s, i + 1, cur.push(s[i]))
    }
}

/// The transformed non-empty lines of the whole listing.
pub open spec fn transformed_lines(s: Seq<char>) -> Seq<Seq<char>> {
    lines_tf_acc(s, 0, Seq::empty())
}

/// The line announces a public key entry.
pub open spec fn starts_with_pub(l: Seq<char>) -> bool {
    l.len() >= 3 && l[0] == 'p' && l[1] == 'u' && l[2] == 'b'
}

/// Index of the first public key entry at or after `i`, or `ls.len()`.
pub open spec fn first_pub_from(ls: Seq<Seq<char>>, i: int) -> int
    decreases ls.len() - i,
{
    if i >= ls.len() {
        ls.len() as int
    } else if starts_with_pub(ls[i]) {
        i
    } else {
        first_pub_from(ls, i + 1)
    }
}

/// What `get_fingerprint` returns for a given key-listing output.
pub open spec fn fingerprint_spec(s: Seq<char>) -> Result<Seq<char>, WorkerError> {
    let ls = transformed_lines(s);
    let i = first_pub_from(ls, 0);
    if i == ls.len() {
        Err(WorkerError::Gpg)
    } else if i + 1 < ls.len() {
        Ok(ls[i + 1])
    } else {
        Err(WorkerError::Gpg)
    }
}

/// Trims a line and removes its spaces.
fn transform_line(l: &str) -> (r: String)
    ensures
        r@ == transformed(l@),
{
    let n = l.unicode_len();

    let mut a: usize = 0;
    while a < n && is_whitespace_char(l.get_char(a))
        invariant
            a <= n,
            n == l@.len(),
            skip_ws_from(l@, 0) == skip_ws_from(l@, a as int),
        decreases n - a,
    {
        a += 1;
    }

    let mut b: usize = n;
    while b > 0 && is_whitespace_char(l.get_char(b - 1))
        invariant
            b <= n,
            n == l@.len(),
            rtrim_from(l@, n as int) == rtrim_from(l@, b as int),
        decreases b,
    {
        b -= 1;
    }

    let t = if a <= b {
        l.substring_char(a, b)
    } else {
        ""
    };
    proof {
        if a > b {
            reveal_strlit("");
            assert(t@ =~= trim_spec(l@));
        }
    }

    let m = t.unicode_len();
    let mut out = String::new();
    let mut k: usize = 0;
    proof {
        assert(t@.skip(0) =~= t@);
    }
    while k < m
        invariant
            k <= m,
            m == t@.len(),
            despace(t@) == out@ + despace(t@.skip(k as int)),
        decreases m - k,
    {
        let c = t.get_char(k);
        proof {
            assert(t@.skip(k as int).drop_first() =~= t@.skip(k as int + 1));
        }
        if c != ' ' {
            push_char(&mut out, c);
            proof {
                assert(out@ =~= (out@.drop_last() + seq![c]));
                assert(despace(t@) =~= out@ + despace(t@.skip(k as int + 1)));
            }
        }
        k += 1;
    }
    proof {
        assert(despace(t@.skip(m as int)) =~= Seq::<char>::empty());
        assert(out@ =~= despace(t@));
    }
    out
}

/// Extracts the key fingerprint from a key-listing output: the (trimmed,
/// space-free) line after the first line that starts with `"pub"`; any other
/// shape fails.
pub fn get_fingerprint(output: &str) -> (r: Result<String, WorkerError>)
    ensures
        (r is Ok) == (fingerprint_spec(output@) is Ok),
        r is Ok ==> r->Ok_0@ == fingerprint_spec(output@)->Ok_0,
        r is Err ==> r->Err_0 == fingerprint_spec(output@)->Err_0,
{
    let n = output.unicode_len();

    // Collect the transformed non-empty lines.
    let mut lines: Vec<String> = Vec::new();
    let mut cur = String::new();
    let mut i: usize = 0;
    proof {
        assert(lines.deep_view() + lines_tf_acc(output@, 0, cur@) =~= transformed_lines(output@));
    }
    while i < n
        invariant
            i <= n,
            n == output@.len(),
            transformed_lines(output@) == lines.deep_view() + lines_tf_acc(
                output@,
                i as int,
                cur@,
            ),
        decreases n - i,
    {
        let c = output.get_char(i);
        if c == '\n' {
            if line_kept_exec(&cur) {
                let t = transform_line(cur.as_str());
                lines.push(t);
                proof {
                    assert(lines.deep_view() =~= (lines.deep_view().drop_last() + seq![
                        transformed(cur@),
                    ]));
                    assert(transformed_lines(output@) =~= lines.deep_view() + lines_tf_acc(
                        output@,
                        i as int + 1,
                        Seq::empty(),
                    ));
                }
            }
            cur = String::new();
            i += 1;
        } else {
            push_char(&mut cur, c);
            i += 1;
        }
    }
    if line_kept_exec(&cur) {
        let t = transform_line(cur.as_str());
        lines.push(t);
        proof {
            assert(lines.deep_view() =~= (lines.deep_view().drop_last() + seq![transformed(cur@)]));
        }
    }
    proof {
        assert(transformed_lines(output@) =~= lines.deep_view());
    }

    // Find the first public key entry.
    let ghost ls = transformed_lines(output@);
    let count = lines.len();
    let mut idx: usize = 0;
    while idx < count && !starts_with_pub_exec(&lines[idx])
        invariant
            idx <= count,
            count == lines.len(),
            ls == lines.deep_view(),
            first_pub_from(ls, 0) == first_pub_from(ls, idx as int),
        decreases count - idx,
    {
        idx += 1;
    }
    if idx == count {
        return Err(WorkerError::Gpg);
    }
    if idx + 1 < count {
        let fp = lines[idx + 1].clone();
        Ok(fp)
    } else {
        Err(WorkerError::Gpg)
    }
}

/// The raw line counts once a single trailing carriage return is dropped.
fn line_kept_exec(cur: &String) -> (r: bool)
    ensures
        r == line_kept(cur@),
{
    let s = cur.as_str();
    let n = s.unicode_len();
    n > 1 || (n == 1 && s.get_char(0) != '\r')
}

/// The line announces a public key entry.
fn starts_with_pub_exec(l: &String) -> (r: bool)
    ensures
        r == starts_with_pub(l@),
{
    let s = l.as_str();
    let n = s.unicode_len();
    n >= 3 && s.get_char(0) == 'p' && s.get_char(1) == 'u' && s.get_char(2) == 'b'
}

} // verus!
