//! The interpreter model, the acceptance rules that compare a candidate
//! against a selector, and the error taxonomy of discovery.
//!
//! An `Interpreter` is what the external query collaborator reports for an
//! executable: its version triple and its path.  Discovery itself never
//! constructs one; it only decides whether to accept it.

use vstd::prelude::*;
use crate::version::Platform;
use crate::version::PythonVersionSelector;
use crate::launcher::PyListPath;

verus! {

/// Structured metadata the query collaborator reported for one executable.
#[derive(Debug)]
pub struct Interpreter {
    pub major: u8,
    pub minor: u8,
    pub patch: u8,
    pub executable: String,
}

impl Interpreter {
    pub fn new(major: u8, minor: u8, patch: u8, executable: String) -> (r: Interpreter)
        ensures
            r.major == major && r.minor == minor && r.patch == patch && r.executable@
                == executable@,
    {
        Interpreter { major, minor, patch, executable }
    }

    pub fn python_major(&self) -> (r: u8)
        ensures
            r == self.major,
    {
        self.major
    }

    pub fn python_minor(&self) -> (r: u8)
        ensures
            r == self.minor,
    {
        self.minor
    }

    pub fn python_patch(&self) -> (r: u8)
        ensures
            r == self.patch,
    {
        self.patch
    }
}

/// A raw candidate: an entry the Windows launcher declared (version known,
/// not yet queried) or an interpreter the query collaborator confirmed.
pub enum PythonInstallation {
    PyListPath(PyListPath),
    Interpreter(Interpreter),
}

impl PythonInstallation {
    pub open spec fn spec_major(&self) -> u8 {
        match self {
            PythonInstallation::PyListPath(entry) => entry.major,
            PythonInstallation::Interpreter(interpreter) => interpreter.major,
        }
    }

    pub open spec fn spec_minor(&self) -> u8 {
        match self {
            PythonInstallation::PyListPath(entry) => entry.minor,
            PythonInstallation::Interpreter(interpreter) => interpreter.minor,
        }
    }

    pub fn major(&self) -> (r: u8)
        ensures
            r == self.spec_major(),
    {
        match self {
            PythonInstallation::PyListPath(entry) => entry.major,
            PythonInstallation::Interpreter(interpreter) => interpreter.python_major(),
        }
    }

    pub fn minor(&self) -> (r: u8)
        ensures
            r == self.spec_minor(),
    {
        match self {
            PythonInstallation::PyListPath(entry) => entry.minor,
            PythonInstallation::Interpreter(interpreter) => interpreter.python_minor(),
        }
    }

    /// Decides what to do with this candidate under `selector`: accept it,
    /// reject it, or query it first.  A launcher entry is pre-filtered on
    /// its declared major/minor and must always be queried before it can be
    /// returned; a patch-precise selector always needs the queried patch.
    pub fn select(self, selector: PythonVersionSelector) -> (r: SelectDecision)
        ensures
            r == spec_select(self, selector),
    {
        match self {
            PythonInstallation::Interpreter(interpreter) => {
                let ok = accepts_interpreter(selector, &interpreter);
                if ok {
                    SelectDecision::Accept(interpreter)
                } else {
                    SelectDecision::Reject
                }
            },
            PythonInstallation::PyListPath(entry) => {
                let pre = match selector {
                    PythonVersionSelector::Default => true,
                    PythonVersionSelector::Major(major) => entry.major == major,
                    PythonVersionSelector::MajorMinor(major, minor) => entry.major == major
                        && entry.minor == minor,
                    PythonVersionSelector::MajorMinorPatch(_, _, _) => true,
                };
                if pre {
                    SelectDecision::NeedsQuery(entry.executable_path)
                } else {
                    SelectDecision::Reject
                }
            },
        }
    }
}

/// The outcome of holding a candidate against a selector without the help
/// of the query collaborator.
pub enum SelectDecision {
    Accept(Interpreter),
    NeedsQuery(String),
    Reject,
}

/// Whether a queried interpreter satisfies the selector: every field the
/// selector states must match exactly, and fields it leaves out are free.
pub open spec fn spec_accepts_full(
    selector: PythonVersionSelector,
    major: u8,
    minor: u8,
    patch: u8,
) -> bool {
    match selector {
        PythonVersionSelector::Default => true,
        PythonVersionSelector::Major(m) => major == m,
        PythonVersionSelector::MajorMinor(m, n) => major == m && minor == n,
        PythonVersionSelector::MajorMinorPatch(m, n, p) => major == m && minor == n && patch == p,
    }
}

/// `spec_accepts_full` over an interpreter value.
pub open spec fn spec_accepts_interpreter(
    selector: PythonVersionSelector,
    interpreter: Interpreter,
) -> bool {
    spec_accepts_full(selector, interpreter.major, interpreter.minor, interpreter.patch)
}

pub fn accepts_interpreter(selector: PythonVersionSelector, interpreter: &Interpreter) -> (r: bool)
    ensures
        r == spec_accepts_interpreter(selector, *interpreter),
{
    match selector {
        PythonVersionSelector::Default => true,
        PythonVersionSelector::Major(m) => interpreter.major == m,
        PythonVersionSelector::MajorMinor(m, n) => interpreter.major == m && interpreter.minor
            == n,
        PythonVersionSelector::MajorMinorPatch(m, n, p) => interpreter.major == m
            && interpreter.minor == n && interpreter.patch == p,
    }
}

/// What `select` decides, as a function of the candidate and the selector.
pub open spec fn spec_select(
    inst: PythonInstallation,
    selector: PythonVersionSelector,
) -> SelectDecision {
    match inst {
        PythonInstallation::Interpreter(interpreter) => {
            if spec_accepts_interpreter(selector, interpreter) {
                SelectDecision::Accept(interpreter)
            } else {
                SelectDecision::Reject
            }
        },
        PythonInstallation::PyListPath(entry) => {
            if spec_launcher_prefilter(selector, entry.major, entry.minor) {
                SelectDecision::NeedsQuery(entry.executable_path)
            } else {
                SelectDecision::Reject
            }
        },
    }
}

/// Whether a launcher entry's declared major/minor can still satisfy the
/// selector; a patch-precise selector is never decided here.
pub open spec fn spec_launcher_prefilter(
    selector: PythonVersionSelector,
    major: u8,
    minor: u8,
) -> bool {
    match selector {
        PythonVersionSelector::Default => true,
        PythonVersionSelector::Major(m) => major == m,
        PythonVersionSelector::MajorMinor(m, n) => major == m && minor == n,
        PythonVersionSelector::MajorMinorPatch(_, _, _) => true,
    }
}

/// After querying a pre-filtered launcher entry, only a patch-precise
/// selector checks the reported triple again; the others trust the
/// declared major/minor that already passed the pre-filter.
pub open spec fn spec_launcher_post_accepts(
    selector: PythonVersionSelector,
    interpreter: Interpreter,
) -> bool {
    match selector {
        PythonVersionSelector::MajorMinorPatch(m, n, p) => interpreter.major == m
            && interpreter.minor == n && interpreter.patch == p,
        _ => true,
    }
}

pub fn launcher_post_accepts(
    selector: PythonVersionSelector,
    interpreter: &Interpreter,
) -> (r: bool)
    ensures
        r == spec_launcher_post_accepts(selector, *interpreter),
{
    match selector {
        PythonVersionSelector::MajorMinorPatch(m, n, p) => interpreter.major == m
            && interpreter.minor == n && interpreter.patch == p,
        _ => true,
    }
}

/// A failed query that reported an interpreter older than the supported
/// minimum aborts the search only when the selector itself targets such a
/// legacy major; otherwise the candidate is skipped.
pub open spec fn spec_legacy_fatal(selector: PythonVersionSelector) -> bool {
    match selector.spec_major() {
        Some(m) => m <= 2,
        None => false,
    }
}

pub fn legacy_fatal(selector: PythonVersionSelector) -> (r: bool)
    ensures
        r == spec_legacy_fatal(selector),
{
    match selector.major() {
        Some(m) => m <= 2,
        None => false,
    }
}

/// Everything that can go wrong during discovery, absence excluded:
/// absence is a result, not an error.
pub enum Error {
    /// The default search found nothing on Windows.
    NoPythonInstalledWindows,
    /// The default search found nothing on Unix.
    NoPythonInstalledUnix,
    /// Caller-level translation of an empty result for an explicit request.
    NoSuchPython(String),
    /// A query reported an interpreter older than the supported minimum
    /// while the selector targeted exactly such a version.
    Python2OrOlder,
    /// Resolving a name on the search path failed for a reason other than
    /// absence.
    WhichError { name: String, detail: String },
    /// The launcher process could not be spawned.
    PyList(String),
    /// The launcher ran but exited non-zero or printed non-text output.
    PythonSubcommandOutput { message: String, exit_code: String, stdout: String, stderr: String },
    /// The query collaborator failed for a reason other than a legacy
    /// version; carried verbatim with the candidate path.
    QueryFailed { path: String, detail: String },
}

/// The user-facing rendering of an error.
pub open spec fn spec_error_message(e: Error) -> Seq<char> {
    match e {
        Error::NoPythonInstalledWindows => "Could not find `python.exe` in PATH"@,
        Error::NoPythonInstalledUnix => "Could not find `python3` or `python` in PATH"@,
        Error::NoSuchPython(request) => "No Python "@ + request@
            + " In `PATH`. Is Python "@ + request@ + " installed?"@,
        Error::Python2OrOlder => "Python 2 or older is not supported. Please use Python 3 or newer."@,
        Error::WhichError { name, detail } => "Error searching for "@ + name@ + ": "@ + detail@,
        Error::PyList(detail) => "Failed to run `py --list-paths`: "@ + detail@,
        Error::PythonSubcommandOutput { message, .. } => message@,
        Error::QueryFailed { path, detail } => "Failed to query "@ + path@ + ": "@ + detail@,
    }
}

impl Error {
    /// Renders the error for display.
    pub fn message(&self) -> (r: String)
        ensures
            r@ == spec_error_message(*self),
    {
        match self {
            Error::NoPythonInstalledWindows => String::from_str(
                "Could not find `python.exe` in PATH",
            ),
            Error::NoPythonInstalledUnix => String::from_str(
                "Could not find `python3` or `python` in PATH",
            ),
            Error::NoSuchPython(request) => {
                let mut s = String::from_str("No Python ");
                s.append(request.as_str());
                s.append(" In `PATH`. Is Python ");
                s.append(request.as_str());
                s.append(" installed?");
                proof {
                    assert(s@ =~= spec_error_message(*self));
                }
                s
            },
            Error::Python2OrOlder => String::from_str(
                "Python 2 or older is not supported. Please use Python 3 or newer.",
            ),
            Error::WhichError { name, detail } => {
                let mut s = String::from_str("Error searching for ");
                s.append(name.as_str());
                s.append(": ");
                s.append(detail.as_str());
                proof {
                    assert(s@ =~= spec_error_message(*self));
                }
                s
            },
            Error::PyList(detail) => {
                let mut s = String::from_str("Failed to run `py --list-paths`: ");
                s.append(detail.as_str());
                proof {
                    assert(s@ =~= spec_error_message(*self));
                }
                s
            },
            Error::PythonSubcommandOutput { message, .. } => {
                let s = message.clone();
                proof {
                    assert(s@ =~= spec_error_message(*self));
                }
                s
            },
            Error::QueryFailed { path, detail } => {
                let mut s = String::from_str("Failed to query ");
                s.append(path.as_str());
                s.append(": ");
                s.append(detail.as_str());
                proof {
                    assert(s@ =~= spec_error_message(*self));
                }
                s
            },
        }
    }

    /// The error the default search reports when nothing was found.
    pub fn no_python_installed(platform: Platform) -> (r: Error)
        ensures
            r == spec_no_python_installed(platform),
    {
        if platform.is_windows() {
            Error::NoPythonInstalledWindows
        } else {
            Error::NoPythonInstalledUnix
        }
    }
}

pub open spec fn spec_no_python_installed(platform: Platform) -> Error {
    if platform.spec_is_windows() {
        Error::NoPythonInstalledWindows
    } else {
        Error::NoPythonInstalledUnix
    }
}

} // verus!
