//! Candidate executable names for a selector, most specific first.
//!
//! The order is load-bearing: it decides which installation wins when
//! several satisfy a looser match.  Windows names carry an `.exe` suffix;
//! the `Default` selector prefers the versioned `python3` alias.

use vstd::prelude::*;
use crate::chars::spec_digits;
use crate::chars::u8_to_string;
use crate::version::Platform;
use crate::version::PythonVersionSelector;

verus! {

/// `python{major}` with the platform extension.
pub open spec fn spec_name_major(major: u8, windows: bool) -> Seq<char> {
    "python"@ + spec_digits(major as nat) + spec_ext(windows)
}

/// `python{major}.{minor}` with the platform extension.
pub open spec fn spec_name_major_minor(major: u8, minor: u8, windows: bool) -> Seq<char> {
    "python"@ + spec_digits(major as nat) + "."@ + spec_digits(minor as nat) + spec_ext(windows)
}

/// `python{major}.{minor}.{patch}` with the platform extension.
pub open spec fn spec_name_major_minor_patch(
    major: u8,
    minor: u8,
    patch: u8,
    windows: bool,
) -> Seq<char> {
    "python"@ + spec_digits(major as nat) + "."@ + spec_digits(minor as nat) + "."@ + spec_digits(
        patch as nat,
    ) + spec_ext(windows)
}

pub open spec fn spec_ext(windows: bool) -> Seq<char> {
    if windows {
        ".exe"@
    } else {
        ""@
    }
}

pub open spec fn spec_plain_python(windows: bool) -> Seq<char> {
    if windows {
        "python.exe"@
    } else {
        "python"@
    }
}

pub open spec fn spec_plain_python3(windows: bool) -> Seq<char> {
    if windows {
        "python3.exe"@
    } else {
        "python3"@
    }
}

/// The ordered name list a selector searches for, most specific first,
/// always ending in the bare `python` name.
pub open spec fn spec_possible_names(sel: PythonVersionSelector, windows: bool) -> Seq<Seq<char>> {
    match sel {
        PythonVersionSelector::Default => seq![
            spec_plain_python3(windows),
            spec_plain_python(windows),
        ],
        PythonVersionSelector::Major(major) => seq![
            spec_name_major(major, windows),
            spec_plain_python(windows),
        ],
        PythonVersionSelector::MajorMinor(major, minor) => seq![
            spec_name_major_minor(major, minor, windows),
            spec_name_major(major, windows),
            spec_plain_python(windows),
        ],
        PythonVersionSelector::MajorMinorPatch(major, minor, patch) => seq![
            spec_name_major_minor_patch(major, minor, patch, windows),
            spec_name_major_minor(major, minor, windows),
            spec_name_major(major, windows),
            spec_plain_python(windows),
        ],
    }
}

fn name_major(major: u8, platform: Platform) -> (r: String)
    ensures
        r@ == spec_name_major(major, platform.spec_is_windows()),
{
    let mut s = String::from_str("python");
    let digits = u8_to_string(major);
    s.append(digits.as_str());
    if platform.is_windows() {
        s.append(".exe");
    }
    proof {
        reveal_strlit("");
        assert(s@ =~= spec_name_major(major, platform.spec_is_windows()));
    }
    s
}

fn name_major_minor(major: u8, minor: u8, platform: Platform) -> (r: String)
    ensures
        r@ == spec_name_major_minor(major, minor, platform.spec_is_windows()),
{
    let mut s = String::from_str("python");
    let major_digits = u8_to_string(major);
    s.append(major_digits.as_str());
    s.append(".");
    let minor_digits = u8_to_string(minor);
    s.append(minor_digits.as_str());
    if platform.is_windows() {
        s.append(".exe");
    }
    proof {
        reveal_strlit("");
        assert(s@ =~= spec_name_major_minor(major, minor, platform.spec_is_windows()));
    }
    s
}

fn name_major_minor_patch(major: u8, minor: u8, patch: u8, platform: Platform) -> (r: String)
    ensures
        r@ == spec_name_major_minor_patch(major, minor, patch, platform.spec_is_windows()),
{
    let mut s = String::from_str("python");
    let major_digits = u8_to_string(major);
    s.append(major_digits.as_str());
    s.append(".");
    let minor_digits = u8_to_string(minor);
    s.append(minor_digits.as_str());
    s.append(".");
    let patch_digits = u8_to_string(patch);
    s.append(patch_digits.as_str());
    if platform.is_windows() {
        s.append(".exe");
    }
    proof {
        reveal_strlit("");
        assert(s@ =~= spec_name_major_minor_patch(major, minor, patch, platform.spec_is_windows()));
    }
    s
}

fn plain_python(platform: Platform) -> (r: String)
    ensures
        r@ == spec_plain_python(platform.spec_is_windows()),
{
    if platform.is_windows() {
        String::from_str("python.exe")
    } else {
        String::from_str("python")
    }
}

fn plain_python3(platform: Platform) -> (r: String)
    ensures
        r@ == spec_plain_python3(platform.spec_is_windows()),
{
    if platform.is_windows() {
        String::from_str("python3.exe")
    } else {
        String::from_str("python3")
    }
}

impl PythonVersionSelector {
    /// The ordered candidate executable names for this selector on the given
    /// platform, most specific first.
    pub fn possible_names(self, platform: Platform) -> (r: Vec<String>)
        ensures
            r.deep_view() == spec_possible_names(self, platform.spec_is_windows()),
            r@.len() <= 4,
    {
        let mut names: Vec<String> = Vec::new();
        match self {
            PythonVersionSelector::Default => {
                names.push(plain_python3(platform));
                names.push(plain_python(platform));
            },
            PythonVersionSelector::Major(major) => {
                names.push(name_major(major, platform));
                names.push(plain_python(platform));
            },
            PythonVersionSelector::MajorMinor(major, minor) => {
                names.push(name_major_minor(major, minor, platform));
                names.push(name_major(major, platform));
                names.push(plain_python(platform));
            },
            PythonVersionSelector::MajorMinorPatch(major, minor, patch) => {
                names.push(name_major_minor_patch(major, minor, patch, platform));
                names.push(name_major_minor(major, minor, platform));
                names.push(name_major(major, platform));
                names.push(plain_python(platform));
            },
        }
        proof {
            assert(names.deep_view() =~= spec_possible_names(self, platform.spec_is_windows()));
        }
        names
    }
}

} // verus!
