//! Lexical path handling on plain strings: splitting into components,
//! the Windows Store shim filter, file-name and file-stem extraction, and
//! lexical normalization of `.` and `..` components.
//!
//! Windows paths accept both `/` and `\` as separators; Unix paths only `/`.

use vstd::prelude::*;

verus! {

/// True when `c` separates path components on the given platform family.
pub open spec fn spec_is_sep(c: char, windows: bool) -> bool {
    c == '/' || (windows && c == '\\')
}

fn is_sep(c: char, windows: bool) -> (r: bool)
    ensures
        r == spec_is_sep(c, windows),
{
    c == '/' || (windows && c == '\\')
}

/// `s` split at every separator, keeping empty pieces.
pub open spec fn spec_raw_split(s: Seq<char>, windows: bool) -> Seq<Seq<char>>
    decreases s.len(),
{
    if s.len() == 0 {
        seq![Seq::<char>::empty()]
    } else {
        let rest = spec_raw_split(s.drop_last(), windows);
        let c = s.last();
        if spec_is_sep(c, windows) {
            rest.push(Seq::<char>::empty())
        } else {
            rest.update(rest.len() - 1, rest.last().push(c))
        }
    }
}

/// The single-dot component.
pub open spec fn spec_dot() -> Seq<char> {
    seq!['.']
}

/// The parent-directory component.
pub open spec fn spec_dotdot() -> Seq<char> {
    seq!['.', '.']
}

/// Pieces worth keeping as components: non-empty and not `.`.
pub open spec fn spec_keep(ps: Seq<Seq<char>>) -> Seq<Seq<char>>
    decreases ps.len(),
{
    if ps.len() == 0 {
        Seq::empty()
    } else {
        let prev = spec_keep(ps.drop_last());
        let last = ps.last();
        if last.len() > 0 && last != spec_dot() {
            prev.push(last)
        } else {
            prev
        }
    }
}

/// The normalized components of a path string: split at separators, empty
/// and `.` pieces dropped.
pub open spec fn spec_components(s: Seq<char>, windows: bool) -> Seq<Seq<char>> {
    spec_keep(spec_raw_split(s, windows))
}

/// Splits a path into its components, dropping empty and `.` pieces.
pub fn split_components(s: &str, windows: bool) -> (r: Vec<String>)
    ensures
        r.deep_view() == spec_components(s@, windows),
{
    let len = s.unicode_len();
    let mut raw: Vec<String> = Vec::new();
    let mut cur = String::new();
    let mut i: usize = 0;
    while i < len
        invariant
            0 <= i <= len,
            len == s@.len(),
            raw.deep_view().push(cur@) =~= spec_raw_split(s@.take(i as int), windows),
        decreases len - i,
    {
        let c = s.get_char(i);
        proof {
            assert(s@.take(i + 1).drop_last() =~= s@.take(i as int));
            assert(s@.take(i + 1).last() == c);
        }
        if is_sep(c, windows) {
            raw.push(cur);
            cur = String::new();
        } else {
            crate::chars::push_char(&mut cur, c);
        }
        proof {
            assert(raw.deep_view().push(cur@) =~= spec_raw_split(s@.take(i + 1), windows));
        }
        i = i + 1;
    }
    raw.push(cur);
    proof {
        assert(s@.take(len as int) =~= s@);
        assert(raw.deep_view() =~= spec_raw_split(s@, windows));
    }
    let ghost rs = spec_raw_split(s@, windows);
    let mut out: Vec<String> = Vec::new();
    let n = raw.len();
    let mut j: usize = 0;
    while j < n
        invariant
            0 <= j <= n,
            n == raw.len(),
            raw.deep_view() == rs,
            out.deep_view() =~= spec_keep(rs.take(j as int)),
        decreases n - j,
    {
        let piece = &raw[j];
        proof {
            assert(rs.take(j + 1).drop_last() =~= rs.take(j as int));
            assert(rs.take(j + 1).last() == rs[j as int]);
            assert(rs[j as int] == piece@);
        }
        let plen = piece.as_str().unicode_len();
        let keep: bool = if plen == 0 {
            false
        } else if plen == 1 && piece.as_str().get_char(0) == '.' {
            proof {
                assert(piece@ =~= spec_dot());
            }
            false
        } else {
            proof {
                if piece@ == spec_dot() {
                    assert(piece@.len() == 1 && piece@[0] == '.');
                }
            }
            true
        };
        if keep {
            out.push(piece.clone());
        }
        proof {
            assert(out.deep_view() =~= spec_keep(rs.take(j + 1)));
        }
        j = j + 1;
    }
    proof {
        assert(rs.take(n as int) =~= rs);
    }
    out
}

/// Character-wise string equality.
pub fn str_eq(a: &str, b: &str) -> (r: bool)
    ensures
        r == (a@ == b@),
{
    let alen = a.unicode_len();
    let blen = b.unicode_len();
    if alen != blen {
        return false;
    }
    let mut i: usize = 0;
    while i < alen
        invariant
            0 <= i <= alen,
            alen == a@.len(),
            alen == b@.len(),
            forall|j: int| 0 <= j < i ==> a@[j] == b@[j],
        decreases alen - i,
    {
        if a.get_char(i) != b.get_char(i) {
            return false;
        }
        i = i + 1;
    }
    proof {
        assert(a@ =~= b@);
    }
    true
}

/// Index of the last occurrence of `c` in `s`, if any.
pub open spec fn spec_last_at(s: Seq<char>, c: char) -> Option<int>
    decreases s.len(),
{
    if s.len() == 0 {
        None
    } else if s.last() == c {
        Some(s.len() - 1)
    } else {
        spec_last_at(s.drop_last(), c)
    }
}

fn find_last_char(s: &str, c: char) -> (r: Option<usize>)
    ensures
        match r {
            Some(i) => spec_last_at(s@, c) == Some(i as int),
            None => spec_last_at(s@, c) is None,
        },
{
    let len = s.unicode_len();
    proof {
        assert(s@.take(len as int) =~= s@);
    }
    let mut i: usize = len;
    while i > 0
        invariant
            0 <= i <= len,
            len == s@.len(),
            spec_last_at(s@, c) == spec_last_at(s@.take(i as int), c),
        decreases i,
    {
        proof {
            assert(s@.take(i as int).drop_last() =~= s@.take(i - 1));
            assert(s@.take(i as int).last() == s@[i - 1]);
        }
        if s.get_char(i - 1) == c {
            return Some(i - 1);
        }
        i = i - 1;
    }
    proof {
        assert(s@.take(0) =~= Seq::<char>::empty());
    }
    None
}

/// True when a file name is of the `python*.exe` family: an `exe` extension
/// after the last dot, and a stem that starts with `python`.
pub open spec fn spec_python_exe_name(f: Seq<char>) -> bool {
    match spec_last_at(f, '.') {
        None => false,
        Some(d) => {
            let stem = f.take(d);
            let ext = f.skip(d + 1);
            ext =~= seq!['e', 'x', 'e'] && stem.len() >= 6 && stem[0] == 'p' && stem[1] == 'y'
                && stem[2] == 't' && stem[3] == 'h' && stem[4] == 'o' && stem[5] == 'n'
        },
    }
}

fn is_python_exe_name(f: &str) -> (r: bool)
    ensures
        r == spec_python_exe_name(f@),
{
    let len = f.unicode_len();
    match find_last_char(f, '.') {
        None => false,
        Some(d) => {
            proof {
                lemma_last_at_in_range(f@, '.');
            }
            if len - d - 1 != 3 {
                proof {
                    assert(f@.skip(d + 1).len() == len - d - 1);
                }
                return false;
            }
            let ext_ok = f.get_char(d + 1) == 'e' && f.get_char(d + 2) == 'x' && f.get_char(d + 3)
                == 'e';
            proof {
                assert(f@.skip(d + 1).len() == 3);
                assert(f@.skip(d + 1)[0] == f@[d + 1]);
                assert(f@.skip(d + 1)[1] == f@[d + 2]);
                assert(f@.skip(d + 1)[2] == f@[d + 3]);
                if ext_ok {
                    assert(f@.skip(d + 1) =~= seq!['e', 'x', 'e']);
                }
            }
            if !ext_ok {
                return false;
            }
            if d < 6 {
                proof {
                    assert(f@.take(d as int).len() == d);
                }
                return false;
            }
            proof {
                assert forall|k: int| 0 <= k < d implies f@.take(d as int)[k] == f@[k] by {}
            }
            f.get_char(0) == 'p' && f.get_char(1) == 'y' && f.get_char(2) == 't' && f.get_char(3)
                == 'h' && f.get_char(4) == 'o' && f.get_char(5) == 'n'
        },
    }
}

proof fn lemma_last_at_in_range(s: Seq<char>, c: char)
    requires
        (spec_last_at(s, c) is Some),
    ensures
        ({
            let i = spec_last_at(s, c)->Some_0;
            0 <= i < s.len() && s[i] == c && forall|j: int| i < j < s.len() ==> s[j] != c
        }),
    decreases s.len(),
{
    if s.len() > 0 && s.last() != c {
        lemma_last_at_in_range(s.drop_last(), c);
        assert(forall|j: int| 0 <= j < s.len() - 1 ==> s.drop_last()[j] == s[j]);
    }
}

/// True when the string is an absolute Windows path: a drive prefix such as
/// `C:\` (or `C:/`), or a UNC path starting with two separators.
pub open spec fn spec_windows_absolute(s: Seq<char>) -> bool {
    (s.len() >= 3 && spec_ascii_alpha(s[0]) && s[1] == ':' && spec_is_sep(s[2], true)) || (s.len()
        >= 2 && spec_is_sep(s[0], true) && spec_is_sep(s[1], true))
}

pub open spec fn spec_ascii_alpha(c: char) -> bool {
    ('a' <= c && c <= 'z') || ('A' <= c && c <= 'Z')
}

fn windows_absolute(s: &str) -> (r: bool)
    ensures
        r == spec_windows_absolute(s@),
{
    let len = s.unicode_len();
    if len >= 3 {
        let c0 = s.get_char(0);
        let c1 = s.get_char(1);
        let c2 = s.get_char(2);
        if (('a' <= c0 && c0 <= 'z') || ('A' <= c0 && c0 <= 'Z')) && c1 == ':' && is_sep(c2, true) {
            return true;
        }
    }
    if len >= 2 {
        let c0 = s.get_char(0);
        let c1 = s.get_char(1);
        return is_sep(c0, true) && is_sep(c1, true);
    }
    false
}

/// True when the path has the exact shape of the Windows Store app
/// execution alias: an absolute path whose last four components are
/// `Local`, `Microsoft`, `WindowsApps` and a `python*.exe` file name.
///
/// The four-segment match is deliberately structural and best-effort: a
/// store-governed path with an extra segment between `WindowsApps` and the
/// executable is not rejected.
pub open spec fn spec_is_windows_store_shim(s: Seq<char>) -> bool {
    spec_windows_absolute(s) && ({
        let c = spec_components(s, true);
        c.len() >= 4 && spec_python_exe_name(c.last()) && c[c.len() - 2] == "WindowsApps"@ && c[
            c.len() - 3
        ] == "Microsoft"@ && c[c.len() - 4] == "Local"@
    })
}

/// Rejects the Windows Store's decoy `python*.exe` redirectors by path shape.
pub fn is_windows_store_shim(path: &str) -> (r: bool)
    ensures
        r == spec_is_windows_store_shim(path@),
{
    if !windows_absolute(path) {
        return false;
    }
    let comps = split_components(path, true);
    let n = comps.len();
    if n < 4 {
        return false;
    }
    proof {
        assert(comps.deep_view()[n - 1] == comps@[n - 1]@);
        assert(comps.deep_view()[n - 2] == comps@[n - 2]@);
        assert(comps.deep_view()[n - 3] == comps@[n - 3]@);
        assert(comps.deep_view()[n - 4] == comps@[n - 4]@);
    }
    is_python_exe_name(comps[n - 1].as_str()) && str_eq(comps[n - 2].as_str(), "WindowsApps")
        && str_eq(comps[n - 3].as_str(), "Microsoft") && str_eq(comps[n - 4].as_str(), "Local")
}

/// The final component of a path, unless there is none or it is `..`.
pub open spec fn spec_file_name(s: Seq<char>, windows: bool) -> Option<Seq<char>> {
    let c = spec_components(s, windows);
    if c.len() == 0 {
        None
    } else if c.last() == spec_dotdot() {
        None
    } else {
        Some(c.last())
    }
}

pub fn file_name(s: &str, windows: bool) -> (r: Option<String>)
    ensures
        match r {
            Some(f) => spec_file_name(s@, windows) == Some(f@),
            None => spec_file_name(s@, windows) is None,
        },
{
    let mut comps = split_components(s, windows);
    let n = comps.len();
    if n == 0 {
        return None;
    }
    proof {
        assert(comps.deep_view()[n - 1] == comps@[n - 1]@);
        assert(comps.deep_view().last() == comps@[n - 1]@);
    }
    let last = comps.pop().unwrap();
    let is_dotdot = last.as_str().unicode_len() == 2 && last.as_str().get_char(0) == '.'
        && last.as_str().get_char(1) == '.';
    proof {
        if is_dotdot {
            assert(last@ =~= spec_dotdot());
        } else {
            if last@ == spec_dotdot() {
                assert(last@.len() == 2 && last@[0] == '.' && last@[1] == '.');
            }
        }
    }
    if is_dotdot {
        None
    } else {
        Some(last)
    }
}

/// The file name with its extension removed: everything before the last
/// dot, except that a name whose only dot is its first character keeps it.
pub open spec fn spec_file_stem(f: Seq<char>) -> Seq<char> {
    match spec_last_at(f, '.') {
        None => f,
        Some(d) => if d == 0 {
            f
        } else {
            f.take(d)
        },
    }
}

pub fn file_stem(f: &str) -> (r: String)
    ensures
        r@ == spec_file_stem(f@),
{
    match find_last_char(f, '.') {
        None => String::from_str(f),
        Some(d) => {
            if d == 0 {
                String::from_str(f)
            } else {
                proof {
                    lemma_last_at_in_range(f@, '.');
                }
                let head = f.substring_char(0, d);
                proof {
                    assert(head@ =~= f@.take(d as int));
                }
                String::from_str(head)
            }
        },
    }
}

/// Components after resolving `..` against the collected prefix; a `..`
/// with nothing before it is dropped.
pub open spec fn spec_norm_components(ps: Seq<Seq<char>>) -> Seq<Seq<char>>
    decreases ps.len(),
{
    if ps.len() == 0 {
        Seq::empty()
    } else {
        let prev = spec_norm_components(ps.drop_last());
        let c = ps.last();
        if c == spec_dotdot() {
            if prev.len() > 0 {
                prev.drop_last()
            } else {
                prev
            }
        } else {
            prev.push(c)
        }
    }
}

/// Components joined with a separator.
pub open spec fn spec_join(ps: Seq<Seq<char>>, sep: char) -> Seq<char>
    decreases ps.len(),
{
    if ps.len() == 0 {
        Seq::empty()
    } else if ps.len() == 1 {
        ps[0]
    } else {
        spec_join(ps.drop_last(), sep) + seq![sep] + ps.last()
    }
}

/// Lexical normalization: components with `.` dropped and `..` resolved,
/// joined with the platform separator, keeping a single leading separator
/// when the input started with one.
pub open spec fn spec_normalize(s: Seq<char>, windows: bool) -> Seq<char> {
    let comps = spec_norm_components(spec_components(s, windows));
    let sep: char = if windows {
        '\\'
    } else {
        '/'
    };
    let root: Seq<char> = if s.len() >= 1 && spec_is_sep(s[0], windows) {
        seq![sep]
    } else {
        Seq::empty()
    };
    root + spec_join(comps, sep)
}

/// Normalizes a path string lexically, without touching the filesystem.
/// `.` components are dropped and `..` components consume what precedes
/// them; a Windows drive prefix survives as the first component.
pub fn normalize_path(s: &str, windows: bool) -> (r: String)
    ensures
        r@ == spec_normalize(s@, windows),
{
    let comps = split_components(s, windows);
    let ghost cs = comps.deep_view();
    let mut norm: Vec<String> = Vec::new();
    let n = comps.len();
    let mut i: usize = 0;
    while i < n
        invariant
            0 <= i <= n,
            n == comps.len(),
            comps.deep_view() == cs,
            norm.deep_view() =~= spec_norm_components(cs.take(i as int)),
        decreases n - i,
    {
        let piece = &comps[i];
        proof {
            assert(cs.take(i + 1).drop_last() =~= cs.take(i as int));
            assert(cs.take(i + 1).last() == cs[i as int]);
            assert(cs[i as int] == piece@);
        }
        let is_dotdot = piece.as_str().unicode_len() == 2 && piece.as_str().get_char(0) == '.'
            && piece.as_str().get_char(1) == '.';
        proof {
            if is_dotdot {
                assert(piece@ =~= spec_dotdot());
            } else {
                if piece@ == spec_dotdot() {
                    assert(piece@.len() == 2 && piece@[0] == '.' && piece@[1] == '.');
                }
            }
        }
        if is_dotdot {
            if norm.len() > 0 {
                norm.pop();
            }
        } else {
            norm.push(piece.clone());
        }
        proof {
            assert(norm.deep_view() =~= spec_norm_components(cs.take(i + 1)));
        }
        i = i + 1;
    }
    proof {
        assert(cs.take(n as int) =~= cs);
    }
    let sep: char = if windows {
        '\\'
    } else {
        '/'
    };
    let mut out = String::new();
    let slen = s.unicode_len();
    if slen >= 1 && is_sep(s.get_char(0), windows) {
        crate::chars::push_char(&mut out, sep);
    }
    let ghost root = out@;
    let ghost ns = norm.deep_view();
    let m = norm.len();
    let mut k: usize = 0;
    while k < m
        invariant
            0 <= k <= m,
            m == norm.len(),
            norm.deep_view() == ns,
            out@ =~= root + spec_join(ns.take(k as int), sep),
        decreases m - k,
    {
        proof {
            assert(ns.take(k + 1).drop_last() =~= ns.take(k as int));
            assert(ns.take(k + 1).last() == ns[k as int]);
            assert(ns[k as int] == norm@[k as int]@);
        }
        if k > 0 {
            crate::chars::push_char(&mut out, sep);
        }
        out.append(norm[k].as_str());
        proof {
            assert(out@ =~= root + spec_join(ns.take(k + 1), sep));
        }
        k = k + 1;
    }
    proof {
        assert(ns.take(m as int) =~= ns);
        assert(out@ =~= spec_normalize(s@, windows));
    }
    out
}

} // verus!
