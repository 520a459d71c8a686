//! Parsing of the Windows launcher's interpreter listing.
//!
//! The launcher prints one interpreter per line, in the shape
//! ` -V:3.12          C:\...\python.exe` (a legacy ` -3.8` form is also
//! accepted, as is an `-arm` architecture tag).  Lines that do not match
//! the pattern are ignored, and an entry whose minor number does not fit
//! in eight bits is dropped.

use vstd::prelude::*;
use crate::chars::spec_is_digit;
use crate::chars::spec_digit_val;
use crate::chars::spec_digits_val;
use crate::chars::is_digit;
use crate::chars::digit_val;

verus! {

/// One interpreter the Windows launcher reported: its declared version and
/// the path to its executable.
#[derive(Debug)]
pub struct PyListPath {
    pub major: u8,
    pub minor: u8,
    pub executable_path: String,
}

/// `s` split at every occurrence of `c`, keeping empty pieces.
pub open spec fn spec_split_on(s: Seq<char>, c: char) -> Seq<Seq<char>>
    decreases s.len(),
{
    if s.len() == 0 {
        seq![Seq::<char>::empty()]
    } else {
        let rest = spec_split_on(s.drop_last(), c);
        if s.last() == c {
            rest.push(Seq::<char>::empty())
        } else {
            rest.update(rest.len() - 1, rest.last().push(s.last()))
        }
    }
}

/// A line with one trailing carriage return removed.
pub open spec fn spec_strip_cr(l: Seq<char>) -> Seq<char> {
    if l.len() > 0 && l.last() == '\r' {
        l.drop_last()
    } else {
        l
    }
}

/// The end of the run of digits starting at `i`.
pub open spec fn spec_digit_run_end(s: Seq<char>, i: int) -> int
    decreases s.len() - i,
{
    if 0 <= i < s.len() && spec_is_digit(s[i]) {
        spec_digit_run_end(s, i + 1)
    } else {
        i
    }
}

/// True when `c` counts as pattern whitespace.
pub open spec fn spec_is_space(c: char) -> bool {
    c == ' ' || c == '\t' || c == '\u{b}' || c == '\u{c}' || c == '\r' || c == '\n'
}

/// The end of the run of whitespace starting at `i`.
pub open spec fn spec_space_run_end(s: Seq<char>, i: int) -> int
    decreases s.len() - i,
{
    if 0 <= i < s.len() && spec_is_space(s[i]) {
        spec_space_run_end(s, i + 1)
    } else {
        i
    }
}

/// Where the version digits start on a listing line: after ` -` and an
/// optional `V:` tag.  `None` when the line does not open that way.
pub open spec fn spec_line_version_start(l: Seq<char>) -> Option<int> {
    if l.len() >= 2 && l[0] == ' ' && l[1] == '-' {
        if l.len() >= 4 && l[2] == 'V' && l[3] == ':' {
            Some(4int)
        } else {
            Some(2int)
        }
    } else {
        None
    }
}

/// What one listing line yields: a major digit, a minor number and the
/// path text after the version field, or nothing when the line does not
/// match the pattern or the minor number overflows eight bits.
pub open spec fn spec_parse_py_line(l: Seq<char>) -> Option<(u8, u8, Seq<char>)> {
    match spec_line_version_start(l) {
        None => None,
        Some(p) => {
            if p < l.len() && spec_is_digit(l[p]) && p + 1 < l.len() {
                let major = spec_digit_val(l[p]);
                let q = p + 2;
                let j = spec_digit_run_end(l, q);
                if j > q {
                    let minor = spec_digits_val(l.subrange(q, j));
                    if minor <= 255 {
                        let k1 = if j < l.len() && l[j] == '-' {
                            j + 1
                        } else {
                            j
                        };
                        let k2 = if k1 + 3 <= l.len() && l[k1] == 'a' && l[k1 + 1] == 'r' && l[k1
                            + 2] == 'm' {
                            k1 + 3
                        } else {
                            k1
                        };
                        let k3 = spec_digit_run_end(l, k2);
                        let k4 = spec_space_run_end(l, k3);
                        let k5 = if k4 < l.len() && l[k4] == '*' {
                            k4 + 1
                        } else {
                            k4
                        };
                        let k6 = spec_space_run_end(l, k5);
                        Some((major as u8, minor as u8, l.skip(k6)))
                    } else {
                        None
                    }
                } else {
                    None
                }
            } else {
                None
            }
        },
    }
}

/// The entries of a whole listing: each line (split on newlines, with
/// carriage returns stripped) that matches the pattern, in output order.
pub open spec fn spec_py_entries(stdout: Seq<char>) -> Seq<(u8, u8, Seq<char>)> {
    spec_py_entries_of_lines(spec_split_on(stdout, '\n'))
}

pub open spec fn spec_py_entries_of_lines(lines: Seq<Seq<char>>) -> Seq<(u8, u8, Seq<char>)>
    decreases lines.len(),
{
    if lines.len() == 0 {
        Seq::empty()
    } else {
        let prev = spec_py_entries_of_lines(lines.drop_last());
        match spec_parse_py_line(spec_strip_cr(lines.last())) {
            Some(e) => prev.push(e),
            None => prev,
        }
    }
}

fn digit_run_end(l: &str, i: usize) -> (r: usize)
    requires
        i <= l@.len(),
    ensures
        r == spec_digit_run_end(l@, i as int),
        i <= r <= l@.len(),
{
    let len = l.unicode_len();
    let mut j = i;
    while j < len && is_digit(l.get_char(j))
        invariant
            i <= j <= len,
            len == l@.len(),
            spec_digit_run_end(l@, i as int) == spec_digit_run_end(l@, j as int),
        decreases len - j,
    {
        j = j + 1;
    }
    j
}

fn space_run_end(l: &str, i: usize) -> (r: usize)
    requires
        i <= l@.len(),
    ensures
        r == spec_space_run_end(l@, i as int),
        i <= r <= l@.len(),
{
    let len = l.unicode_len();
    let mut j = i;
    while j < len && is_space(l.get_char(j))
        invariant
            i <= j <= len,
            len == l@.len(),
            spec_space_run_end(l@, i as int) == spec_space_run_end(l@, j as int),
        decreases len - j,
    {
        j = j + 1;
    }
    j
}

fn is_space(c: char) -> (r: bool)
    ensures
        r == spec_is_space(c),
{
    c == ' ' || c == '\t' || c == '\u{b}' || c == '\u{c}' || c == '\r' || c == '\n'
}

/// Parses one listing line (carriage return already stripped).
fn parse_py_line(l: &str) -> (r: Option<PyListPath>)
    ensures
        match r {
            Some(e) => spec_parse_py_line(l@) == Some(
                (e.major, e.minor, e.executable_path@),
            ),
            None => spec_parse_py_line(l@) is None,
        },
{
    let len = l.unicode_len();
    if !(len >= 2 && l.get_char(0) == ' ' && l.get_char(1) == '-') {
        return None;
    }
    let p: usize = if len >= 4 && l.get_char(2) == 'V' && l.get_char(3) == ':' {
        4
    } else {
        2
    };
    if !(p < len && is_digit(l.get_char(p)) && p + 1 < len) {
        return None;
    }
    let major = digit_val(l.get_char(p));
    let q = p + 2;
    let j = digit_run_end(l, q);
    if j == q {
        return None;
    }
    let mut minor: u32 = 0;
    let mut t = q;
    while t < j
        invariant
            q <= t <= j,
            j <= l@.len(),
            j == spec_digit_run_end(l@, q as int),
            q == p + 2,
            p < l@.len(),
            minor <= 255 ==> minor == spec_digits_val(l@.subrange(q as int, t as int)),
            minor > 255 ==> spec_digits_val(l@.subrange(q as int, t as int)) > 255,
            minor <= 2560 + 9,
        decreases j - t,
    {
        proof {
            lemma_digit_run_digits(l@, q as int, t as int);
            assert(l@.subrange(q as int, t + 1).drop_last() =~= l@.subrange(q as int, t as int));
            assert(l@.subrange(q as int, t + 1).last() == l@[t as int]);
        }
        let d = digit_val(l.get_char(t));
        if minor <= 255 {
            minor = minor * 10 + (d as u32);
        } else {
            minor = 256;
        }
        t = t + 1;
    }
    if minor > 255 {
        proof {
            assert(l@.subrange(q as int, j as int) =~= l@.subrange(q as int, t as int));
        }
        return None;
    }
    let k1: usize = if j < len && l.get_char(j) == '-' {
        j + 1
    } else {
        j
    };
    let k2: usize = if len >= 3 && k1 <= len - 3 && l.get_char(k1) == 'a' && l.get_char(k1 + 1)
        == 'r' && l.get_char(k1 + 2) == 'm' {
        k1 + 3
    } else {
        k1
    };
    let k3 = digit_run_end(l, k2);
    let k4 = space_run_end(l, k3);
    let k5: usize = if k4 < len && l.get_char(k4) == '*' {
        k4 + 1
    } else {
        k4
    };
    let k6 = space_run_end(l, k5);
    let path = l.substring_char(k6, len);
    proof {
        assert(path@ =~= l@.skip(k6 as int));
        assert(l@.subrange(q as int, j as int) =~= l@.subrange(q as int, t as int));
    }
    Some(
        PyListPath {
            major,
            minor: minor as u8,
            executable_path: String::from_str(path),
        },
    )
}

proof fn lemma_digit_run_digits(s: Seq<char>, i: int, t: int)
    requires
        0 <= i <= t < spec_digit_run_end(s, i),
    ensures
        spec_is_digit(s[t]),
        t < s.len(),
    decreases t - i,
{
    if t > i {
        lemma_digit_run_digits(s, i + 1, t);
    }
}

/// Splits text into lines at every newline, keeping empty lines.
fn split_lines(s: &str) -> (r: Vec<String>)
    ensures
        r.deep_view() == spec_split_on(s@, '\n'),
{
    let len = s.unicode_len();
    let mut lines: Vec<String> = Vec::new();
    let mut cur = String::new();
    let mut i: usize = 0;
    while i < len
        invariant
            0 <= i <= len,
            len == s@.len(),
            lines.deep_view().push(cur@) =~= spec_split_on(s@.take(i as int), '\n'),
        decreases len - i,
    {
        let c = s.get_char(i);
        proof {
            assert(s@.take(i + 1).drop_last() =~= s@.take(i as int));
            assert(s@.take(i + 1).last() == c);
        }
        if c == '\n' {
            lines.push(cur);
            cur = String::new();
        } else {
            crate::chars::push_char(&mut cur, c);
        }
        proof {
            assert(lines.deep_view().push(cur@) =~= spec_split_on(s@.take(i + 1), '\n'));
        }
        i = i + 1;
    }
    lines.push(cur);
    proof {
        assert(s@.take(len as int) =~= s@);
        assert(lines.deep_view() =~= spec_split_on(s@, '\n'));
    }
    lines
}

/// Extracts the interpreter entries from the launcher's listing, in the
/// launcher's own order; lines that do not match the pattern are ignored.
pub fn parse_py_list_output(stdout: &str) -> (r: Vec<PyListPath>)
    ensures
        ({
            let ents = spec_py_entries(stdout@);
            r@.len() == ents.len() && (forall|i: int|
                0 <= i < ents.len() ==> (#[trigger] r@[i]).major == ents[i].0 && r@[i].minor
                    == ents[i].1 && r@[i].executable_path@ == ents[i].2)
        }),
{
    let lines = split_lines(stdout);
    let ghost ls = lines.deep_view();
    let ghost ents = spec_py_entries(stdout@);
    proof {
        assert(ents == spec_py_entries_of_lines(ls));
    }
    let mut out: Vec<PyListPath> = Vec::new();
    let n = lines.len();
    let mut i: usize = 0;
    while i < n
        invariant
            0 <= i <= n,
            n == lines.len(),
            lines.deep_view() == ls,
            ({
                let part = spec_py_entries_of_lines(ls.take(i as int));
                out@.len() == part.len() && (forall|k: int|
                    0 <= k < part.len() ==> (#[trigger] out@[k]).major == part[k].0 && out@[k].minor
                        == part[k].1 && out@[k].executable_path@ == part[k].2)
            }),
        decreases n - i,
    {
        proof {
            assert(ls.take(i + 1).drop_last() =~= ls.take(i as int));
            assert(ls.take(i + 1).last() == ls[i as int]);
            assert(ls[i as int] == lines@[i as int]@);
        }
        let line = &lines[i];
        let llen = line.as_str().unicode_len();
        let stripped: &str = if llen > 0 && line.as_str().get_char(llen - 1) == '\r' {
            let t = line.as_str().substring_char(0, llen - 1);
            proof {
                assert(t@ =~= line@.drop_last());
            }
            t
        } else {
            line.as_str()
        };
        proof {
            assert(stripped@ == spec_strip_cr(ls[i as int]));
        }
        match parse_py_line(stripped) {
            Some(e) => {
                out.push(e);
            },
            None => {},
        }
        i = i + 1;
    }
    proof {
        assert(ls.take(n as int) =~= ls);
    }
    out
}

} // verus!
