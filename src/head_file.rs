//! Reading the name of an unborn branch out of the repository's head-pointer
//! file, whose first line reads like `ref: refs/heads/<branch>`.

use crate::text::{chars_of, is_white_space, is_whitespace, string_of_range};
use vstd::prelude::*;

verus! {

/// The index of the first line feed in `s` at or after `from`, or the length.
pub open spec fn line_end(s: Seq<char>, from: int) -> int
    decreases s.len() - from,
{
    if from < 0 || from >= s.len() {
        s.len() as int
    } else if s[from] == '\n' {
        from
    } else {
        line_end(s, from + 1)
    }
}

/// The first index in `[from, to)` that holds no white space, or `to`.
pub open spec fn skip_white(s: Seq<char>, from: int, to: int) -> int
    decreases to - from,
{
    if from >= to {
        to
    } else if is_white_space(s[from]) {
        skip_white(s, from + 1, to)
    } else {
        from
    }
}

/// The end of `s[from..to]` once its trailing white space is cut off.
pub open spec fn cut_white(s: Seq<char>, from: int, to: int) -> int
    decreases to - from,
{
    if to <= from {
        from
    } else if is_white_space(s[to - 1]) {
        cut_white(s, from, to - 1)
    } else {
        to
    }
}

/// Where the last `/`-separated segment of `s[from..to]` begins.
pub open spec fn segment_start(s: Seq<char>, from: int, to: int) -> int
    decreases to - from,
{
    if to <= from {
        from
    } else if s[to - 1] == '/' {
        to
    } else {
        segment_start(s, from, to - 1)
    }
}

/// The first line of `s` stripped of surrounding white space, as the range
/// `(start, end)` of `s`.
pub open spec fn trimmed_first_line(s: Seq<char>) -> (int, int) {
    let e = line_end(s, 0);
    let a = skip_white(s, 0, e);
    (a, cut_white(s, a, e))
}

/// The branch that the head-pointer file `s` names: the last `/`-separated
/// segment of its trimmed first line. A file without any line names none.
pub open spec fn head_branch(s: Seq<char>) -> Option<Seq<char>> {
    if s.len() == 0 {
        None
    } else {
        let (a, b) = trimmed_first_line(s);
        Some(s.subrange(segment_start(s, a, b), b))
    }
}

/// The branch named by the first line of a head-pointer file's contents.
/// Returns `None` when the contents hold no line at all.
pub fn branch_from_head_file(contents: &str) -> (r: Option<String>)
    ensures
        r is None <==> head_branch(contents@) is None,
        r matches Some(name) ==> head_branch(contents@) == Some(name@),
{
    let v = chars_of(contents);
    let n = v.len();
    if n == 0 {
        return None;
    }
    let ghost s = v@;
    let mut e: usize = 0;
    while e < n && v[e] != '\n'
        invariant
            0 <= e <= n == s.len(),
            s == v@,
            line_end(s, 0) == line_end(s, e as int),
        decreases n - e,
    {
        e = e + 1;
    }
    let mut a: usize = 0;
    while a < e && is_whitespace(v[a])
        invariant
            0 <= a <= e <= n == s.len(),
            s == v@,
            skip_white(s, 0, e as int) == skip_white(s, a as int, e as int),
        decreases e - a,
    {
        a = a + 1;
    }
    let mut b: usize = e;
    while b > a && is_whitespace(v[b - 1])
        invariant
            0 <= a <= b <= e <= n == s.len(),
            s == v@,
            cut_white(s, a as int, e as int) == cut_white(s, a as int, b as int),
        decreases b - a,
    {
        b = b - 1;
    }
    let mut j: usize = b;
    while j > a && v[j - 1] != '/'
        invariant
            0 <= a <= j <= b <= n == s.len(),
            s == v@,
            segment_start(s, a as int, b as int) == segment_start(s, a as int, j as int),
        decreases j - a,
    {
        j = j - 1;
    }
    proof {
        assert(line_end(s, 0) == e as int);
    }
    Some(string_of_range(&v, j, b))
}

} // verus!
