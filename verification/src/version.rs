//! Version selectors and request classification.
//!
//! A request string is split on `.` into at most three components.  If every
//! component parses as a `u8`, the request is a version selector; otherwise
//! it is a bare executable name (no path separator) or an explicit path
//! (contains the platform's path separator).

use vstd::prelude::*;
use crate::chars::spec_parse_u8;
use crate::chars::parse_u8;

verus! {

/// The host platform, which decides executable naming and path separators.
#[derive(Clone, Copy, PartialEq, Eq, Structural, Debug)]
pub enum Platform {
    Windows,
    Unix,
}

impl Platform {
    pub open spec fn spec_is_windows(self) -> bool {
        self is Windows
    }

    #[verifier::when_used_as_spec(spec_is_windows)]
    pub fn is_windows(self) -> (r: bool)
        ensures
            r == self.spec_is_windows(),
    {
        match self {
            Platform::Windows => true,
            Platform::Unix => false,
        }
    }
}

/// The platform's main path separator.
pub open spec fn spec_main_separator(p: Platform) -> char {
    if p.spec_is_windows() {
        '\\'
    } else {
        '/'
    }
}

pub fn main_separator(p: Platform) -> (c: char)
    ensures
        c == spec_main_separator(p),
{
    if p.is_windows() {
        '\\'
    } else {
        '/'
    }
}

/// How precisely the user asked for a version.
#[derive(Clone, Copy, PartialEq, Eq, Structural, Debug)]
pub enum PythonVersionSelector {
    Default,
    Major(u8),
    MajorMinor(u8, u8),
    MajorMinorPatch(u8, u8, u8),
}

impl PythonVersionSelector {
    /// The major version the selector targets, if it targets one at all.
    pub open spec fn spec_major(self) -> Option<u8> {
        match self {
            PythonVersionSelector::Default => None,
            PythonVersionSelector::Major(major) => Some(major),
            PythonVersionSelector::MajorMinor(major, _) => Some(major),
            PythonVersionSelector::MajorMinorPatch(major, _, _) => Some(major),
        }
    }

    pub fn major(self) -> (r: Option<u8>)
        ensures
            r == self.spec_major(),
    {
        match self {
            PythonVersionSelector::Default => None,
            PythonVersionSelector::Major(major) => Some(major),
            PythonVersionSelector::MajorMinor(major, _) => Some(major),
            PythonVersionSelector::MajorMinorPatch(major, _, _) => Some(major),
        }
    }
}

/// A classified request: a version selector, a bare executable name to look
/// up on the search path, or an explicit filesystem path.
pub enum PythonRequest {
    Version(PythonVersionSelector),
    Name(String),
    Path(String),
}

/// Index of the first occurrence of `c` in `s`, if any.
pub open spec fn spec_first_at(s: Seq<char>, c: char) -> Option<int>
    decreases s.len(),
{
    if s.len() == 0 {
        None
    } else if s[0] == c {
        Some(0int)
    } else {
        match spec_first_at(s.skip(1), c) {
            Some(i) => Some(i + 1),
            None => None,
        }
    }
}

/// True when `c` occurs somewhere in `s`.
pub open spec fn spec_contains(s: Seq<char>, c: char) -> bool {
    exists|i: int| 0 <= i < s.len() && s[i] == c
}

proof fn lemma_first_at_none(s: Seq<char>, c: char)
    requires
        forall|j: int| 0 <= j < s.len() ==> s[j] != c,
    ensures
        spec_first_at(s, c) is None,
    decreases s.len(),
{
    if s.len() > 0 {
        assert(forall|j: int| 0 <= j < s.skip(1).len() ==> s.skip(1)[j] == s[j + 1]);
        lemma_first_at_none(s.skip(1), c);
    }
}

proof fn lemma_first_at_some(s: Seq<char>, c: char, i: int)
    requires
        0 <= i < s.len(),
        s[i] == c,
        forall|j: int| 0 <= j < i ==> s[j] != c,
    ensures
        spec_first_at(s, c) == Some(i),
    decreases s.len(),
{
    if i > 0 {
        assert(forall|j: int| 0 <= j < s.skip(1).len() ==> s.skip(1)[j] == s[j + 1]);
        lemma_first_at_some(s.skip(1), c, i - 1);
    }
}

/// Finds the first occurrence of `c` in `s`.
pub fn find_char(s: &str, c: char) -> (r: Option<usize>)
    ensures
        match r {
            Some(i) => spec_first_at(s@, c) == Some(i as int),
            None => spec_first_at(s@, c) is None,
        },
{
    let len = s.unicode_len();
    let mut i: usize = 0;
    while i < len
        invariant
            0 <= i <= len,
            len == s@.len(),
            forall|j: int| 0 <= j < i ==> s@[j] != c,
        decreases len - i,
    {
        if s.get_char(i) == c {
            proof {
                lemma_first_at_some(s@, c, i as int);
            }
            return Some(i);
        }
        i = i + 1;
    }
    proof {
        lemma_first_at_none(s@, c);
    }
    None
}

pub fn contains_char(s: &str, c: char) -> (r: bool)
    ensures
        r == spec_contains(s@, c),
{
    proof {
        lemma_first_at_contains(s@, c);
    }
    match find_char(s, c) {
        Some(_) => true,
        None => false,
    }
}

proof fn lemma_first_at_contains(s: Seq<char>, c: char)
    ensures
        spec_first_at(s, c) is Some <==> spec_contains(s, c),
    decreases s.len(),
{
    if s.len() > 0 && s[0] != c {
        lemma_first_at_contains(s.skip(1), c);
        assert(forall|j: int| 0 <= j < s.skip(1).len() ==> s.skip(1)[j] == s[j + 1]);
        if spec_contains(s, c) {
            let i = choose|i: int| 0 <= i < s.len() && s[i] == c;
            assert(s.skip(1)[i - 1] == c);
        }
    }
}

proof fn lemma_first_at_in_range(s: Seq<char>, c: char)
    requires
        (spec_first_at(s, c) is Some),
    ensures
        ({
            let i = spec_first_at(s, c)->Some_0;
            0 <= i < s.len() && s[i] == c
        }),
    decreases s.len(),
{
    if s.len() > 0 && s[0] != c {
        lemma_first_at_in_range(s.skip(1), c);
    }
}

/// The request split on `.` into at most three components; the third keeps
/// any further dots.
pub open spec fn spec_split3(s: Seq<char>) -> Seq<Seq<char>> {
    match spec_first_at(s, '.') {
        None => seq![s],
        Some(i) => {
            let rest = s.skip(i + 1);
            match spec_first_at(rest, '.') {
                None => seq![s.take(i), rest],
                Some(j) => seq![s.take(i), rest.take(j), rest.skip(j + 1)],
            }
        },
    }
}

/// The selector a request denotes, when all its components are small numbers.
pub open spec fn spec_selector_of(s: Seq<char>) -> Option<PythonVersionSelector> {
    let parts = spec_split3(s);
    if parts.len() == 1 {
        match spec_parse_u8(parts[0]) {
            Some(major) => Some(PythonVersionSelector::Major(major)),
            None => None,
        }
    } else if parts.len() == 2 {
        if spec_parse_u8(parts[0]) is Some && spec_parse_u8(parts[1]) is Some {
            Some(
                PythonVersionSelector::MajorMinor(
                    spec_parse_u8(parts[0])->Some_0,
                    spec_parse_u8(parts[1])->Some_0,
                ),
            )
        } else {
            None
        }
    } else {
        if spec_parse_u8(parts[0]) is Some && spec_parse_u8(parts[1]) is Some && spec_parse_u8(
            parts[2],
        ) is Some {
            Some(
                PythonVersionSelector::MajorMinorPatch(
                    spec_parse_u8(parts[0])->Some_0,
                    spec_parse_u8(parts[1])->Some_0,
                    spec_parse_u8(parts[2])->Some_0,
                ),
            )
        } else {
            None
        }
    }
}

/// Classifies a request string: a numeric version selector when every
/// dot-separated component is a small number, otherwise a bare name or, when
/// the string holds the platform's path separator, an explicit path.
pub fn classify_request(request: &str, platform: Platform) -> (r: PythonRequest)
    ensures
        match r {
            PythonRequest::Version(sel) => spec_selector_of(request@) == Some(sel),
            PythonRequest::Name(n) => spec_selector_of(request@) is None && !spec_contains(
                request@,
                spec_main_separator(platform),
            ) && n@ == request@,
            PythonRequest::Path(p) => spec_selector_of(request@) is None && spec_contains(
                request@,
                spec_main_separator(platform),
            ) && p@ == request@,
        },
{
    let len = s_len(request);
    let sel: Option<PythonVersionSelector> = match find_char(request, '.') {
        None => {
            match parse_u8(request) {
                Some(major) => Some(PythonVersionSelector::Major(major)),
                None => None,
            }
        },
        Some(i) => {
            proof {
                lemma_first_at_in_range(request@, '.');
            }
            let head = request.substring_char(0, i);
            let rest = request.substring_char(i + 1, len);
            proof {
                assert(head@ =~= request@.take(i as int));
                assert(rest@ =~= request@.skip(i + 1));
            }
            match find_char(rest, '.') {
                None => {
                    match (parse_u8(head), parse_u8(rest)) {
                        (Some(major), Some(minor)) => Some(
                            PythonVersionSelector::MajorMinor(major, minor),
                        ),
                        _ => None,
                    }
                },
                Some(j) => {
                    proof {
                        lemma_first_at_in_range(rest@, '.');
                    }
                    let rlen = s_len(rest);
                    let mid = rest.substring_char(0, j);
                    let tail = rest.substring_char(j + 1, rlen);
                    proof {
                        assert(mid@ =~= rest@.take(j as int));
                        assert(tail@ =~= rest@.skip(j + 1));
                    }
                    match (parse_u8(head), parse_u8(mid), parse_u8(tail)) {
                        (Some(major), Some(minor), Some(patch)) => Some(
                            PythonVersionSelector::MajorMinorPatch(major, minor, patch),
                        ),
                        _ => None,
                    }
                },
            }
        },
    };
    match sel {
        Some(selector) => PythonRequest::Version(selector),
        None => {
            if contains_char(request, main_separator(platform)) {
                PythonRequest::Path(String::from_str(request))
            } else {
                PythonRequest::Name(String::from_str(request))
            }
        },
    }
}

fn s_len(s: &str) -> (r: usize)
    ensures
        r == s@.len(),
{
    s.unicode_len()
}

} // verus!
