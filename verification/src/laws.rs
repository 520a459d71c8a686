//! The discovery laws, stated and proved once over the specification
//! functions that the executable contracts use.

use vstd::prelude::*;
use crate::chars::spec_parse_u8;
use crate::version::PythonVersionSelector;
use crate::version::spec_split3;
use crate::version::spec_selector_of;
use crate::interpreter::Interpreter;
use crate::interpreter::Error;
use crate::interpreter::spec_accepts_interpreter;
use crate::finder::Provenance;
use crate::finder::QueryOutcome;
use crate::finder::SearchResult;
use crate::finder::spec_on_query;

verus! {

/// A request of three numeric components selects exactly its triple: the
/// selector is `MajorMinorPatch(M, N, P)`, a queried candidate is accepted
/// iff it reports exactly that triple, and a candidate reporting any other
/// patch leaves the search running instead of ending it.
pub proof fn lemma_patch_request_exact(
    s: Seq<char>,
    m: u8,
    n: u8,
    p: u8,
    path: String,
    i: Interpreter,
)
    requires
        spec_split3(s).len() == 3,
        spec_parse_u8(spec_split3(s)[0]) == Some(m),
        spec_parse_u8(spec_split3(s)[1]) == Some(n),
        spec_parse_u8(spec_split3(s)[2]) == Some(p),
    ensures
        spec_selector_of(s) == Some(PythonVersionSelector::MajorMinorPatch(m, n, p)),
        spec_accepts_interpreter(PythonVersionSelector::MajorMinorPatch(m, n, p), i) <==> (i.major
            == m && i.minor == n && i.patch == p),
        i.patch != p ==> spec_on_query(
            PythonVersionSelector::MajorMinorPatch(m, n, p),
            path,
            Provenance::PathScan,
            QueryOutcome::Reported(i),
        ) is None,
{
}

/// A request of one or two components ignores the fields it does not
/// state: a `Major` selector accepts every minor and patch of its major,
/// and a `MajorMinor` selector accepts every patch of its major/minor.
pub proof fn lemma_loose_request_ignores_finer_fields(m: u8, n: u8, i: Interpreter)
    ensures
        i.major == m ==> spec_accepts_interpreter(PythonVersionSelector::Major(m), i),
        i.major == m && i.minor == n ==> spec_accepts_interpreter(
            PythonVersionSelector::MajorMinor(m, n),
            i,
        ),
        spec_accepts_interpreter(PythonVersionSelector::Default, i),
{
}

/// The decision layer of discovery is a pure function: for one state of
/// the search and one answer from outside, there is exactly one verdict.
/// (What lies outside the model — the filesystem behind the search-path
/// walker and the collaborators themselves — must answer the same for a
/// run to repeat identically.)
pub proof fn lemma_query_decision_deterministic(
    selector: PythonVersionSelector,
    path: String,
    provenance: Provenance,
    a: QueryOutcome,
    b: QueryOutcome,
)
    requires
        a == b,
    ensures
        spec_on_query(selector, path, provenance, a) == spec_on_query(selector, path, provenance, b),
{
}

/// The legacy-skip law: when the selector does not target a legacy major,
/// a scanned candidate - from the search path, a version-manager shim or
/// the launcher listing - that fails its query as pre-supported-minimum is
/// skipped and the scan continues; the legacy error is never propagated
/// for it.  (A directly requested name or path is not a scanned candidate:
/// its failures always propagate.)
pub proof fn lemma_legacy_interpreter_skipped(
    selector: PythonVersionSelector,
    path: String,
    provenance: Provenance,
)
    requires
        (match selector.spec_major() {
            Some(m) => m >= 3,
            None => true,
        }),
        !(provenance is Direct),
    ensures
        spec_on_query(selector, path, provenance, QueryOutcome::Legacy) is None,
{
}

/// The fatal-query law: a query failure other than the legacy case ends
/// the search at once with that failure, carried verbatim with the
/// candidate's path; no further candidate is tried.  (A `python.bat`
/// version-manager shim is the one exception: its failures are absorbed.)
pub proof fn lemma_fatal_query_stops_search(
    selector: PythonVersionSelector,
    path: String,
    detail: String,
    provenance: Provenance,
)
    requires
        !(provenance is Shim),
    ensures
        spec_on_query(selector, path, provenance, QueryOutcome::Failed(detail)) == Some(
            SearchResult::Failed(Error::QueryFailed { path, detail }),
        ),
{
}

} // verus!
