//! The discovery orchestrator.
//!
//! Discovery walks the search-path directories in order and, per directory,
//! the candidate names in generator order; on Windows it falls back to the
//! system launcher when the search path is exhausted (unless an override
//! search path is in use).  Inspecting a candidate and running the launcher
//! are outside work: `advance` hands the caller an [`Action`] asking for
//! them, and `on_query` / `on_launcher` take the answers and decide, so the
//! whole decision logic is a function of the search state and the answers.
//! The search short-circuits on the first accepted candidate and never
//! revisits a rejected one.

use vstd::prelude::*;
use vstd::pervasive::unreached;
use crate::version::Platform;
use crate::version::PythonVersionSelector;
use crate::version::PythonRequest;
use crate::version::classify_request;
use crate::version::spec_selector_of;
use crate::version::spec_contains;
use crate::version::spec_main_separator;
use crate::names::spec_possible_names;
use crate::interpreter::Interpreter;
use crate::interpreter::PythonInstallation;
use crate::interpreter::SelectDecision;
use crate::interpreter::Error;
use crate::interpreter::spec_accepts_interpreter;
use crate::interpreter::spec_launcher_post_accepts;
use crate::interpreter::spec_legacy_fatal;
use crate::interpreter::spec_no_python_installed;
use crate::interpreter::spec_launcher_prefilter;
use crate::interpreter::accepts_interpreter;
use crate::interpreter::launcher_post_accepts;
use crate::interpreter::legacy_fatal;
use crate::launcher::PyListPath;
use crate::launcher::parse_py_list_output;
use crate::launcher::spec_py_entries;
use crate::paths::is_windows_store_shim;
use crate::paths::spec_is_windows_store_shim;
use crate::paths::file_name;
use crate::paths::file_stem;
use crate::paths::spec_file_name;
use crate::paths::spec_file_stem;
use crate::paths::normalize_path;
use crate::paths::spec_normalize;
use crate::paths::str_eq;

verus! {

/// Why a query was issued.
#[derive(Clone, Copy, PartialEq, Eq, Structural, Debug)]
pub enum Provenance {
    /// A candidate found by scanning the search path under a generated name.
    PathScan,
    /// A `python.bat` version-manager shim found on the search path.
    Shim,
    /// An entry the Windows launcher listed.
    LauncherEntry,
    /// A bare name or explicit path resolved outside the selector machinery.
    Direct,
}

/// What the query collaborator answered for one executable.
pub enum QueryOutcome {
    /// The executable was inspected successfully.
    Reported(Interpreter),
    /// The executable predates the supported minimum version.
    Legacy,
    /// Any other failure, carried verbatim.
    Failed(String),
}

/// What the caller reports back after being asked to run the launcher.
pub enum LauncherEvent {
    /// The launcher ran successfully; its standard output, decoded.
    Listing(String),
    /// The launcher binary is not installed.
    SpawnNotFound,
    /// The launcher could not be started for another reason.
    SpawnFailed(String),
    /// The launcher exited with a non-success status.
    BadStatus { status: String, stdout: String, stderr: String },
    /// The launcher's output was not valid text.
    NotUtf8 { detail: String, status: String, stdout: String, stderr: String },
}

/// The terminal outcome of a search.
pub enum SearchResult {
    /// The first acceptable interpreter, in search order.
    Found(Interpreter),
    /// The whole search space was exhausted without a match; not an error.
    NotFound,
    /// The environment itself is broken; the search stopped at once.
    Failed(Error),
}

/// What has to happen next.
pub enum Action {
    /// Ask the query collaborator about `path`, then call `on_query`.
    Query { path: String, provenance: Provenance },
    /// Run the launcher in list mode, then call `on_launcher`.
    RunLauncher,
    /// Call `advance` again.
    Continue,
    /// The search is over.
    Done(SearchResult),
}

/// What kind of request is being served.
pub enum SearchTarget {
    /// A version selector driving the name generator.
    Selector,
    /// A bare executable name looked up as such.
    Name(String),
    /// An explicit path, already normalized, queried directly.
    Path(String),
}

/// Where the machine stands.
pub enum Stage {
    /// Scanning the search path.
    Scan,
    /// A query for `path` is outstanding.
    AwaitQuery { path: String, provenance: Provenance },
    /// A launcher run is outstanding.
    AwaitLauncher,
    /// Walking the launcher's entries.
    LauncherScan,
    /// A terminal result was returned.
    Finished,
}

/// A resolution failure from the search-path walker.
pub enum WhichFailure {
    /// No executable of that name in that directory.
    NotFound,
    /// A genuine resolution problem, described.
    Other(String),
}

/// Relies on `which::which_in_global`: resolves every executable named
/// `name` inside the single directory `dir`, honouring the host's
/// executable-permission and extension rules and expanding `~`; absence is
/// reported as `CannotFindBinaryPath`.  The result depends on the
/// filesystem, so nothing is promised of it.
#[verifier::external_body]
fn which_in_dir(name: &str, dir: &str) -> (r: Result<Vec<String>, WhichFailure>) {
    match which::which_in_global(name, Some(dir)) {
        Ok(paths) => Ok(paths.map(|p| p.to_string_lossy().into_owned()).collect()),
        Err(which::Error::CannotFindBinaryPath) => Err(WhichFailure::NotFound),
        Err(e) => Err(WhichFailure::Other(format!("{e}"))),
    }
}

/// What `on_query` decides for an outstanding query: a terminal result, or
/// `None` to keep scanning.  A fatal query failure stops the search at
/// once; a legacy interpreter does so only when the selector targets a
/// legacy major (a directly requested name or path always propagates its
/// failures); a shim candidate never propagates its failures.
pub open spec fn spec_on_query(
    selector: PythonVersionSelector,
    path: String,
    provenance: Provenance,
    outcome: QueryOutcome,
) -> Option<SearchResult> {
    match provenance {
        Provenance::PathScan => match outcome {
            QueryOutcome::Reported(i) => if spec_accepts_interpreter(selector, i) {
                Some(SearchResult::Found(i))
            } else {
                None
            },
            QueryOutcome::Legacy => if spec_legacy_fatal(selector) {
                Some(SearchResult::Failed(Error::Python2OrOlder))
            } else {
                None
            },
            QueryOutcome::Failed(detail) => Some(
                SearchResult::Failed(Error::QueryFailed { path, detail }),
            ),
        },
        Provenance::Shim => match outcome {
            QueryOutcome::Reported(i) => if spec_accepts_interpreter(selector, i) {
                Some(SearchResult::Found(i))
            } else {
                None
            },
            QueryOutcome::Legacy => None,
            QueryOutcome::Failed(_) => None,
        },
        Provenance::LauncherEntry => match outcome {
            QueryOutcome::Reported(i) => if spec_launcher_post_accepts(selector, i) {
                Some(SearchResult::Found(i))
            } else {
                None
            },
            QueryOutcome::Legacy => if spec_legacy_fatal(selector) {
                Some(SearchResult::Failed(Error::Python2OrOlder))
            } else {
                None
            },
            QueryOutcome::Failed(detail) => Some(
                SearchResult::Failed(Error::QueryFailed { path, detail }),
            ),
        },
        Provenance::Direct => match outcome {
            QueryOutcome::Reported(i) => Some(SearchResult::Found(i)),
            QueryOutcome::Legacy => Some(SearchResult::Failed(Error::Python2OrOlder)),
            QueryOutcome::Failed(detail) => Some(
                SearchResult::Failed(Error::QueryFailed { path, detail }),
            ),
        },
    }
}

/// The result of an exhausted search: the default entry point turns
/// absence into a platform error, every other one reports plain absence.
pub open spec fn spec_finish(default_mode: bool, platform: Platform) -> SearchResult {
    if default_mode {
        SearchResult::Failed(spec_no_python_installed(platform))
    } else {
        SearchResult::NotFound
    }
}

/// The exact action once the search path is exhausted: the launcher on
/// Windows without an override search path, otherwise the finished result.
pub open spec fn spec_scan_finish_action(f: Finder, r: Action) -> bool {
    if f.platform.spec_is_windows() && !f.use_override {
        r is RunLauncher
    } else {
        r == Action::Done(spec_finish(f.default_mode, f.platform))
    }
}

/// The cursors of a freshly constructed machine: nothing visited yet.
pub open spec fn spec_at_start(f: Finder) -> bool {
    f.dir_idx == 0 && f.name_idx == 0 && f.pending.len() == 0 && f.pend_idx == 0
        && !f.pending_shim && f.entries.len() == 0 && f.entry_idx == 0
}

/// True when a launcher entry's path answers a bare-name lookup: its file
/// name, with or without extension, is the requested name.
pub open spec fn spec_name_matches_entry(name: Seq<char>, path: Seq<char>) -> bool {
    match spec_file_name(path, true) {
        Some(f) => f == name || spec_file_stem(f) == name,
        None => false,
    }
}

/// Evidence that a launcher-entry query obeyed the pre-filter: the queried
/// path belongs to the first not-yet-visited entry whose declared
/// major/minor can still satisfy the selector, and every entry skipped on
/// the way could not.
pub open spec fn spec_launcher_query_evidence(pre: Finder, post: Finder, path: String) -> bool {
    &&& post.entries == pre.entries
    &&& exists|i: int|
        #![trigger post.entries@[i]]
        pre.entry_idx <= i < post.entries@.len() && post.entry_idx == i + 1
            && post.entries@[i].executable_path@ == path@ && spec_launcher_prefilter(
            post.selector,
            post.entries@[i].major,
            post.entries@[i].minor,
        ) && (forall|j: int|
            pre.entry_idx <= j < i ==> !spec_launcher_prefilter(
                post.selector,
                (#[trigger] post.entries@[j]).major,
                post.entries@[j].minor,
            ))
}

/// The search machine: configuration captured once at the start, plus the
/// cursor over directories, names, resolved candidates and launcher
/// entries.
pub struct Finder {
    pub selector: PythonVersionSelector,
    pub platform: Platform,
    pub use_override: bool,
    pub default_mode: bool,
    pub target: SearchTarget,
    pub names: Vec<String>,
    pub dirs: Vec<String>,
    pub dir_idx: usize,
    pub name_idx: usize,
    pub pending: Vec<String>,
    pub pend_idx: usize,
    pub pending_shim: bool,
    pub entries: Vec<PyListPath>,
    pub entry_idx: usize,
    pub stage: Stage,
}

impl Finder {
    /// The cursors stay inside their collections; `name_idx` may pass the
    /// end of `names` by one to mark the per-directory shim probe.
    pub open spec fn wf(&self) -> bool {
        self.dir_idx <= self.dirs.len() && self.name_idx <= self.names.len() + 1 && self.pend_idx
            <= self.pending.len() && self.entry_idx <= self.entries.len() && self.names.len() <= 8
            && (self.pending_shim ==> self.platform.spec_is_windows())
    }

    pub fn can_advance(&self) -> (r: bool)
        ensures
            r == (self.stage is Scan || self.stage is LauncherScan),
    {
        match self.stage {
            Stage::Scan => true,
            Stage::LauncherScan => true,
            _ => false,
        }
    }

    pub fn awaiting_query(&self) -> (r: bool)
        ensures
            r == (self.stage is AwaitQuery),
    {
        match self.stage {
            Stage::AwaitQuery { .. } => true,
            _ => false,
        }
    }

    pub fn awaiting_launcher(&self) -> (r: bool)
        ensures
            r == (self.stage is AwaitLauncher),
    {
        match self.stage {
            Stage::AwaitLauncher => true,
            _ => false,
        }
    }

    fn finish_result(&self) -> (r: SearchResult)
        ensures
            r == spec_finish(self.default_mode, self.platform),
    {
        if self.default_mode {
            SearchResult::Failed(Error::no_python_installed(self.platform))
        } else {
            SearchResult::NotFound
        }
    }

    /// Drives the search until outside help is needed or it is over.
    /// A returned candidate from the search path is never a Windows Store
    /// shim; an explicit-path target is queried exactly as captured; the
    /// launcher fallback only runs on Windows without an override search
    /// path, and on that platform an exhausted scan must consult it before
    /// finishing; a finished scan has its cursors at the end of the search
    /// space; absence is only ever reported as an error by the default
    /// entry point, and a resolution error only for a bare-name lookup,
    /// carrying that name.
    pub fn advance(&mut self) -> (r: Action)
        requires
            old(self).wf(),
            (old(self).stage is Scan || old(self).stage is LauncherScan),
        ensures
            final(self).wf(),
            final(self).selector == old(self).selector,
            final(self).platform == old(self).platform,
            final(self).use_override == old(self).use_override,
            final(self).default_mode == old(self).default_mode,
            final(self).target == old(self).target,
            final(self).names == old(self).names,
            final(self).dirs == old(self).dirs,
            final(self).entries == old(self).entries,
            (old(self).target matches SearchTarget::Path(p) ==> (r matches Action::Query {
                path,
                provenance,
            } && path@ == p@ && provenance is Direct)),
            (old(self).stage is Scan && old(self).target is Selector && old(self).dir_idx == old(
                self,
            ).dirs.len() && old(self).pend_idx == old(self).pending.len()
                ==> spec_scan_finish_action(*old(self), r)),
            (old(self).target is Name && old(self).dirs.len() == 0 ==> spec_scan_finish_action(
                *old(self),
                r,
            )),
            (old(self).stage is Scan && old(self).target is Selector && r is Done ==> final(self).dir_idx == final(self).dirs.len() && final(self).pend_idx == final(self).pending.len() && !(final(self).platform.spec_is_windows() && !final(self).use_override)),
            (old(self).stage is LauncherScan && old(self).target is Selector && r is Done
                ==> final(self).entry_idx == final(self).entries.len()),
            match r {
                Action::Query { path, provenance } => (final(self).stage == Stage::AwaitQuery {
                    path,
                    provenance,
                }) && ((provenance is PathScan || provenance is Shim)
                    && final(self).platform.spec_is_windows() ==> !spec_is_windows_store_shim(path@)) && (
                provenance is Shim ==> final(self).platform.spec_is_windows()) && (
                provenance is LauncherEntry ==> spec_launcher_query_evidence(
                    *old(self),
                    *final(self),
                    path,
                )),
                Action::RunLauncher => final(self).platform.spec_is_windows() && !final(self).use_override
                    && final(self).stage is AwaitLauncher,
                Action::Continue => false,
                Action::Done(res) => final(self).stage is Finished && (match res {
                    SearchResult::Found(_) => false,
                    SearchResult::NotFound => !final(self).default_mode,
                    SearchResult::Failed(e) => (final(self).default_mode && e == spec_no_python_installed(
                        final(self).platform,
                    )) || (e matches Error::WhichError { name: en, .. }
                        && old(self).target matches SearchTarget::Name(n) && en@ == n@),
                }),
            },
    {
        let target_name: Option<String> = match &self.target {
            SearchTarget::Selector => None,
            SearchTarget::Name(n) => Some(n.clone()),
            SearchTarget::Path(p) => {
                let path = p.clone();
                let provenance = Provenance::Direct;
                self.stage = Stage::AwaitQuery { path: path.clone(), provenance };
                return Action::Query { path, provenance };
            },
        };
        match target_name {
            Some(name) => self.advance_name(name),
            None => {
                let scanning = match &self.stage {
                    Stage::Scan => true,
                    _ => false,
                };
                if scanning {
                    self.advance_scan()
                } else {
                    self.advance_entries()
                }
            },
        }
    }

    /// Scans the search path for a version selector: per directory each
    /// generated name in order, then (Windows) the `python.bat` shim.
    fn advance_scan(&mut self) -> (r: Action)
        requires
            old(self).wf(),
            (old(self).stage is Scan),
        ensures
            final(self).wf(),
            final(self).selector == old(self).selector,
            final(self).platform == old(self).platform,
            final(self).use_override == old(self).use_override,
            final(self).default_mode == old(self).default_mode,
            final(self).target == old(self).target,
            final(self).names == old(self).names,
            final(self).dirs == old(self).dirs,
            final(self).entries == old(self).entries,
            (old(self).dir_idx == old(self).dirs.len() && old(self).pend_idx == old(
                self,
            ).pending.len() ==> spec_scan_finish_action(*old(self), r)),
            (r is Done ==> final(self).dir_idx == final(self).dirs.len() && final(self).pend_idx
                == final(self).pending.len() && !(final(self).platform.spec_is_windows() && !final(self).use_override)),
            match r {
                Action::Query { path, provenance } => (final(self).stage == Stage::AwaitQuery {
                    path,
                    provenance,
                }) && (provenance is PathScan || provenance is Shim) && (
                final(self).platform.spec_is_windows() ==> !spec_is_windows_store_shim(path@)) && (
                provenance is Shim ==> final(self).platform.spec_is_windows()),
                Action::RunLauncher => final(self).platform.spec_is_windows() && !final(self).use_override
                    && final(self).stage is AwaitLauncher,
                Action::Continue => false,
                Action::Done(res) => final(self).stage is Finished && (match res {
                    SearchResult::Found(_) => false,
                    SearchResult::NotFound => !final(self).default_mode,
                    SearchResult::Failed(e) => final(self).default_mode && e
                        == spec_no_python_installed(final(self).platform),
                }),
            },
    {
        loop
            invariant
                self.wf(),
                self.stage is Scan,
                self.selector == old(self).selector,
                self.platform == old(self).platform,
                self.use_override == old(self).use_override,
                self.default_mode == old(self).default_mode,
                self.target == old(self).target,
                self.names == old(self).names,
                self.dirs == old(self).dirs,
                self.entries == old(self).entries,
                (old(self).dir_idx == old(self).dirs.len() && old(self).pend_idx == old(
                    self,
                ).pending.len() ==> self.dir_idx == self.dirs.len() && self.pend_idx
                    == self.pending.len()),
            ensures
                self.wf(),
                self.stage is Scan,
                self.selector == old(self).selector,
                self.platform == old(self).platform,
                self.use_override == old(self).use_override,
                self.default_mode == old(self).default_mode,
                self.target == old(self).target,
                self.names == old(self).names,
                self.dirs == old(self).dirs,
                self.entries == old(self).entries,
                self.dir_idx == self.dirs.len(),
                self.pend_idx == self.pending.len(),
            decreases
                    self.dirs.len() - self.dir_idx,
                    self.names.len() + 2 - self.name_idx,
                    self.pending.len() - self.pend_idx,
        {
            if self.pend_idx < self.pending.len() {
                let path = self.pending[self.pend_idx].clone();
                self.pend_idx = self.pend_idx + 1;
                if self.platform.is_windows() && is_windows_store_shim(path.as_str()) {
                    continue ;
                }
                let provenance = if self.pending_shim {
                    Provenance::Shim
                } else {
                    Provenance::PathScan
                };
                self.stage = Stage::AwaitQuery { path: path.clone(), provenance };
                return Action::Query { path, provenance };
            }
            if self.dir_idx >= self.dirs.len() {
                break ;
            }
            if self.name_idx < self.names.len() {
                let name = self.names[self.name_idx].clone();
                let dir = self.dirs[self.dir_idx].clone();
                self.name_idx = self.name_idx + 1;
                match which_in_dir(name.as_str(), dir.as_str()) {
                    Ok(paths) => {
                        self.pending = paths;
                        self.pend_idx = 0;
                        self.pending_shim = false;
                    },
                    Err(_) => {
                        self.pending = Vec::new();
                        self.pend_idx = 0;
                    },
                }
            } else if self.name_idx == self.names.len() {
                self.name_idx = self.name_idx + 1;
                if self.platform.is_windows() {
                    let dir = self.dirs[self.dir_idx].clone();
                    match which_in_dir("python.bat", dir.as_str()) {
                        Ok(paths) => {
                            self.pending = paths;
                            self.pend_idx = 0;
                            self.pending_shim = true;
                        },
                        Err(_) => {
                            self.pending = Vec::new();
                            self.pend_idx = 0;
                        },
                    }
                }
            } else {
                self.dir_idx = self.dir_idx + 1;
                self.name_idx = 0;
                self.pending = Vec::new();
                self.pend_idx = 0;
            }
        }
        if self.platform.is_windows() && !self.use_override {
            self.stage = Stage::AwaitLauncher;
            return Action::RunLauncher;
        }
        self.stage = Stage::Finished;
        Action::Done(self.finish_result())
    }

    /// Walks the launcher's entries in output order, pre-filtering on the
    /// declared major/minor.
    fn advance_entries(&mut self) -> (r: Action)
        requires
            old(self).wf(),
        ensures
            final(self).wf(),
            final(self).selector == old(self).selector,
            final(self).platform == old(self).platform,
            final(self).use_override == old(self).use_override,
            final(self).default_mode == old(self).default_mode,
            final(self).target == old(self).target,
            final(self).names == old(self).names,
            final(self).dirs == old(self).dirs,
            final(self).entries == old(self).entries,
            match r {
                Action::Query { path, provenance } => (final(self).stage == Stage::AwaitQuery {
                    path,
                    provenance,
                }) && (provenance is LauncherEntry) && spec_launcher_query_evidence(
                    *old(self),
                    *final(self),
                    path,
                ),
                Action::RunLauncher => false,
                Action::Continue => false,
                Action::Done(res) => final(self).stage is Finished && final(self).entry_idx
                    == final(self).entries.len() && (forall|j: int|
                    old(self).entry_idx <= j < final(self).entries@.len()
                        ==> !spec_launcher_prefilter(
                        final(self).selector,
                        (#[trigger] final(self).entries@[j]).major,
                        final(self).entries@[j].minor,
                    )) && (match res {
                    SearchResult::Found(_) => false,
                    SearchResult::NotFound => !final(self).default_mode,
                    SearchResult::Failed(e) => final(self).default_mode && e == spec_no_python_installed(
                        final(self).platform,
                    ),
                }),
            },
    {
        loop
            invariant
                self.wf(),
                self.selector == old(self).selector,
                self.platform == old(self).platform,
                self.use_override == old(self).use_override,
                self.default_mode == old(self).default_mode,
                self.entries == old(self).entries,
                self.target == old(self).target,
                self.names == old(self).names,
                self.dirs == old(self).dirs,
                old(self).entry_idx <= self.entry_idx,
                forall|j: int|
                    old(self).entry_idx <= j < self.entry_idx ==> !spec_launcher_prefilter(
                        self.selector,
                        (#[trigger] self.entries@[j]).major,
                        self.entries@[j].minor,
                    ),
            ensures
                self.wf(),
                self.selector == old(self).selector,
                self.platform == old(self).platform,
                self.use_override == old(self).use_override,
                self.default_mode == old(self).default_mode,
                self.entries == old(self).entries,
                self.target == old(self).target,
                self.names == old(self).names,
                self.dirs == old(self).dirs,
                self.entry_idx == self.entries.len(),
                forall|j: int|
                    old(self).entry_idx <= j < self.entry_idx ==> !spec_launcher_prefilter(
                        self.selector,
                        (#[trigger] self.entries@[j]).major,
                        self.entries@[j].minor,
                    ),
            decreases self.entries.len() - self.entry_idx,
        {
            if self.entry_idx >= self.entries.len() {
                break ;
            }
            let e = clone_entry(&self.entries[self.entry_idx]);
            self.entry_idx = self.entry_idx + 1;
            match PythonInstallation::PyListPath(e).select(self.selector) {
                SelectDecision::NeedsQuery(path) => {
                    proof {
                        let i = self.entry_idx - 1;
                        assert(self.entries@[i].executable_path@ == path@);
                        assert(spec_launcher_prefilter(
                            self.selector,
                            self.entries@[i].major,
                            self.entries@[i].minor,
                        ));
                    }
                    let provenance = Provenance::LauncherEntry;
                    self.stage = Stage::AwaitQuery { path: path.clone(), provenance };
                    return Action::Query { path, provenance };
                },
                SelectDecision::Reject => {
                    proof {
                        let i = self.entry_idx - 1;
                        assert(!spec_launcher_prefilter(
                            self.selector,
                            self.entries@[i].major,
                            self.entries@[i].minor,
                        ));
                    }
                },
                SelectDecision::Accept(_) => {
                    proof {
                        assert(false);
                    }
                },
            }
        }
        self.stage = Stage::Finished;
        Action::Done(self.finish_result())
    }

    /// Resolves a bare executable name: the first non-shim hit on the
    /// search path wins; a resolution failure other than absence is fatal.
    fn advance_name(&mut self, name: String) -> (r: Action)
        requires
            old(self).wf(),
        ensures
            final(self).wf(),
            final(self).selector == old(self).selector,
            final(self).platform == old(self).platform,
            final(self).use_override == old(self).use_override,
            final(self).default_mode == old(self).default_mode,
            final(self).target == old(self).target,
            final(self).names == old(self).names,
            final(self).dirs == old(self).dirs,
            final(self).entries == old(self).entries,
            (old(self).dirs.len() == 0 ==> spec_scan_finish_action(*old(self), r)),
            match r {
                Action::Query { path, provenance } => (final(self).stage == Stage::AwaitQuery {
                    path,
                    provenance,
                }) && (provenance is Direct) && (final(self).platform.spec_is_windows()
                    ==> !spec_is_windows_store_shim(path@)),
                Action::RunLauncher => final(self).platform.spec_is_windows() && !final(self).use_override
                    && final(self).stage is AwaitLauncher,
                Action::Continue => false,
                Action::Done(res) => final(self).stage is Finished && (match res {
                    SearchResult::Found(_) => false,
                    SearchResult::NotFound => !final(self).default_mode,
                    SearchResult::Failed(e) => (final(self).default_mode && e == spec_no_python_installed(
                        final(self).platform,
                    )) || (e matches Error::WhichError { name: en, .. } && en@ == name@),
                }),
            },
    {
        let n = self.dirs.len();
        let mut d: usize = 0;
        while d < n
            invariant
                0 <= d <= n,
                n == self.dirs.len(),
                self.dirs == old(self).dirs,
                self.names == old(self).names,
                self.target == old(self).target,
                self.entries == old(self).entries,
                self.stage == old(self).stage,
                self.wf(),
                self.selector == old(self).selector,
                self.platform == old(self).platform,
                self.use_override == old(self).use_override,
                self.default_mode == old(self).default_mode,
            decreases n - d,
        {
            let dir = self.dirs[d].clone();
            match which_in_dir(name.as_str(), dir.as_str()) {
                Ok(paths) => {
                    let m = paths.len();
                    let mut k: usize = 0;
                    while k < m
                        invariant
                            0 <= k <= m,
                            m == paths.len(),
                            d < n,
                            n == old(self).dirs.len(),
                            self.dirs == old(self).dirs,
                            self.names == old(self).names,
                            self.target == old(self).target,
                            self.entries == old(self).entries,
                            self.stage == old(self).stage,
                            self.wf(),
                            self.selector == old(self).selector,
                            self.platform == old(self).platform,
                            self.use_override == old(self).use_override,
                            self.default_mode == old(self).default_mode,
                        decreases m - k,
                    {
                        let path = paths[k].clone();
                        if !(self.platform.is_windows() && is_windows_store_shim(
                            path.as_str(),
                        )) {
                            let provenance = Provenance::Direct;
                            self.stage = Stage::AwaitQuery { path: path.clone(), provenance };
                            return Action::Query { path, provenance };
                        }
                        k = k + 1;
                    }
                },
                Err(WhichFailure::NotFound) => {},
                Err(WhichFailure::Other(detail)) => {
                    self.stage = Stage::Finished;
                    return Action::Done(
                        SearchResult::Failed(Error::WhichError { name: name.clone(), detail }),
                    );
                },
            }
            d = d + 1;
        }
        if self.platform.is_windows() && !self.use_override {
            self.stage = Stage::AwaitLauncher;
            return Action::RunLauncher;
        }
        self.stage = Stage::Finished;
        Action::Done(self.finish_result())
    }

    /// Applies the query collaborator's answer for the outstanding
    /// candidate: exactly what [`spec_on_query`] decides, and the scan
    /// resumes where it left off when the answer is not terminal.
    pub fn on_query(&mut self, outcome: QueryOutcome) -> (r: Action)
        requires
            old(self).wf(),
            (old(self).stage is AwaitQuery),
        ensures
            final(self).wf(),
            final(self).selector == old(self).selector,
            final(self).platform == old(self).platform,
            final(self).use_override == old(self).use_override,
            final(self).default_mode == old(self).default_mode,
            final(self).target == old(self).target,
            final(self).names == old(self).names,
            final(self).dirs == old(self).dirs,
            final(self).dir_idx == old(self).dir_idx,
            final(self).name_idx == old(self).name_idx,
            final(self).pending == old(self).pending,
            final(self).pend_idx == old(self).pend_idx,
            final(self).pending_shim == old(self).pending_shim,
            final(self).entries == old(self).entries,
            final(self).entry_idx == old(self).entry_idx,
            (old(self).stage matches Stage::AwaitQuery { path, provenance } ==> (
            match spec_on_query(old(self).selector, path, provenance, outcome) {
                Some(res) => r == Action::Done(res) && final(self).stage is Finished,
                None => r == Action::Continue && (final(self).stage is Scan || final(self).stage
                    is LauncherScan),
            })),
    {
        let (path, prov): (String, Provenance) = match &self.stage {
            Stage::AwaitQuery { path, provenance } => (path.clone(), *provenance),
            _ => unreached(),
        };
        let decision: Option<SearchResult> = match prov {
            Provenance::PathScan => match outcome {
                QueryOutcome::Reported(i) => {
                    if accepts_interpreter(self.selector, &i) {
                        Some(SearchResult::Found(i))
                    } else {
                        None
                    }
                },
                QueryOutcome::Legacy => {
                    if legacy_fatal(self.selector) {
                        Some(SearchResult::Failed(Error::Python2OrOlder))
                    } else {
                        None
                    }
                },
                QueryOutcome::Failed(detail) => Some(
                    SearchResult::Failed(Error::QueryFailed { path, detail }),
                ),
            },
            Provenance::Shim => match outcome {
                QueryOutcome::Reported(i) => {
                    if accepts_interpreter(self.selector, &i) {
                        Some(SearchResult::Found(i))
                    } else {
                        None
                    }
                },
                QueryOutcome::Legacy => None,
                QueryOutcome::Failed(_) => None,
            },
            Provenance::LauncherEntry => match outcome {
                QueryOutcome::Reported(i) => {
                    if launcher_post_accepts(self.selector, &i) {
                        Some(SearchResult::Found(i))
                    } else {
                        None
                    }
                },
                QueryOutcome::Legacy => {
                    if legacy_fatal(self.selector) {
                        Some(SearchResult::Failed(Error::Python2OrOlder))
                    } else {
                        None
                    }
                },
                QueryOutcome::Failed(detail) => Some(
                    SearchResult::Failed(Error::QueryFailed { path, detail }),
                ),
            },
            Provenance::Direct => match outcome {
                QueryOutcome::Reported(i) => Some(SearchResult::Found(i)),
                QueryOutcome::Legacy => Some(SearchResult::Failed(Error::Python2OrOlder)),
                QueryOutcome::Failed(detail) => Some(
                    SearchResult::Failed(Error::QueryFailed { path, detail }),
                ),
            },
        };
        match decision {
            Some(res) => {
                self.stage = Stage::Finished;
                Action::Done(res)
            },
            None => {
                self.stage = match prov {
                    Provenance::LauncherEntry => Stage::LauncherScan,
                    _ => Stage::Scan,
                };
                Action::Continue
            },
        }
    }

    /// Applies the launcher's result.  A missing launcher ends the search
    /// quietly; a failed run is a typed error; a listing is parsed and,
    /// for a bare-name lookup, searched for the first matching file name.
    #[verifier::loop_isolation(false)]
    pub fn on_launcher(&mut self, event: LauncherEvent) -> (r: Action)
        requires
            old(self).wf(),
            (old(self).stage is AwaitLauncher),
        ensures
            final(self).wf(),
            final(self).selector == old(self).selector,
            final(self).platform == old(self).platform,
            final(self).use_override == old(self).use_override,
            final(self).default_mode == old(self).default_mode,
            final(self).target == old(self).target,
            final(self).names == old(self).names,
            final(self).dirs == old(self).dirs,
            final(self).dir_idx == old(self).dir_idx,
            final(self).name_idx == old(self).name_idx,
            final(self).pending == old(self).pending,
            final(self).pend_idx == old(self).pend_idx,
            final(self).pending_shim == old(self).pending_shim,
            match event {
                LauncherEvent::Listing(stdout) => (match old(self).target {
                    SearchTarget::Selector => r == Action::Continue && final(self).stage is LauncherScan
                        && final(self).entry_idx == 0 && spec_entries_match(
                        final(self).entries@,
                        spec_py_entries(stdout@),
                    ),
                    SearchTarget::Name(name) => ({
                        let ents = spec_py_entries(stdout@);
                        match r {
                            Action::Query { path, provenance } => (provenance is Direct) && (
                            final(self).stage == Stage::AwaitQuery { path, provenance }) && (
                            exists|i: int|
                                0 <= i < ents.len() && (#[trigger] ents[i]).2 == path@
                                    && spec_name_matches_entry(name@, ents[i].2) && (forall|j: int|
                                    0 <= j < i ==> !spec_name_matches_entry(
                                        name@,
                                        (#[trigger] ents[j]).2,
                                    ))),
                            Action::Done(res) => res == spec_finish(
                                final(self).default_mode,
                                final(self).platform,
                            ) && final(self).stage is Finished && (forall|i: int|
                                0 <= i < ents.len() ==> !spec_name_matches_entry(
                                    name@,
                                    (#[trigger] ents[i]).2,
                                )),
                            _ => false,
                        }
                    }),
                    SearchTarget::Path(_) => true,
                }),
                LauncherEvent::SpawnNotFound => r == Action::Done(
                    spec_finish(final(self).default_mode, final(self).platform),
                ) && final(self).stage is Finished,
                LauncherEvent::SpawnFailed(detail) => r == Action::Done(
                    SearchResult::Failed(Error::PyList(detail)),
                ) && final(self).stage is Finished,
                LauncherEvent::BadStatus { status, stdout, stderr } => (match r {
                    Action::Done(res) => (res matches SearchResult::Failed(e) && (
                    e matches Error::PythonSubcommandOutput {
                        message,
                        exit_code,
                        stdout: out,
                        stderr: err,
                    } && message@ == "Running `py --list-paths` failed with status "@ + status@
                        && exit_code == status && out == stdout && err == stderr)),
                    _ => false,
                }) && final(self).stage is Finished,
                LauncherEvent::NotUtf8 { detail, status, stdout, stderr } => (match r {
                    Action::Done(res) => (res matches SearchResult::Failed(e) && (
                    e matches Error::PythonSubcommandOutput {
                        message,
                        exit_code,
                        stdout: out,
                        stderr: err,
                    } && message@ == "The stdout of `py --list-paths` isn't UTF-8 encoded: "@
                        + detail@ && exit_code == status && out == stdout && err == stderr)),
                    _ => false,
                }) && final(self).stage is Finished,
            },
    {
        match event {
            LauncherEvent::Listing(stdout) => {
                let entries = parse_py_list_output(stdout.as_str());
                let target_name: Option<String> = match &self.target {
                    SearchTarget::Name(n) => Some(n.clone()),
                    _ => None,
                };
                match target_name {
                    None => {
                        self.entries = entries;
                        self.entry_idx = 0;
                        self.stage = Stage::LauncherScan;
                        Action::Continue
                    },
                    Some(name) => {
                        let ghost ents = spec_py_entries(stdout@);
                        let m = entries.len();
                        let mut k: usize = 0;
                        while k < m
                            invariant
                                0 <= k <= m,
                                m == entries.len(),
                                self == old(self),
                                ents == spec_py_entries(stdout@),
                                spec_entries_match(entries@, ents),
                                forall|i: int|
                                    0 <= i < k ==> !spec_name_matches_entry(
                                        name@,
                                        (#[trigger] ents[i]).2,
                                    ),
                            decreases m - k,
                        {
                            let path = entries[k].executable_path.clone();
                            let matched: bool = match file_name(path.as_str(), true) {
                                Some(f) => {
                                    if str_eq(f.as_str(), name.as_str()) {
                                        true
                                    } else {
                                        let stem = file_stem(f.as_str());
                                        str_eq(stem.as_str(), name.as_str())
                                    }
                                },
                                None => false,
                            };
                            if matched {
                                let provenance = Provenance::Direct;
                                self.stage = Stage::AwaitQuery { path: path.clone(), provenance };
                                return Action::Query { path, provenance };
                            }
                            k = k + 1;
                        }
                        self.stage = Stage::Finished;
                        Action::Done(self.finish_result())
                    },
                }
            },
            LauncherEvent::SpawnNotFound => {
                self.stage = Stage::Finished;
                Action::Done(self.finish_result())
            },
            LauncherEvent::SpawnFailed(detail) => {
                self.stage = Stage::Finished;
                Action::Done(SearchResult::Failed(Error::PyList(detail)))
            },
            LauncherEvent::BadStatus { status, stdout, stderr } => {
                let mut message = String::from_str("Running `py --list-paths` failed with status ");
                message.append(status.as_str());
                self.stage = Stage::Finished;
                Action::Done(
                    SearchResult::Failed(
                        Error::PythonSubcommandOutput { message, exit_code: status, stdout, stderr },
                    ),
                )
            },
            LauncherEvent::NotUtf8 { detail, status, stdout, stderr } => {
                let mut message = String::from_str(
                    "The stdout of `py --list-paths` isn't UTF-8 encoded: ",
                );
                message.append(detail.as_str());
                self.stage = Stage::Finished;
                Action::Done(
                    SearchResult::Failed(
                        Error::PythonSubcommandOutput { message, exit_code: status, stdout, stderr },
                    ),
                )
            },
        }
    }
}

/// True when the parsed entry vector carries exactly the listed entries.
pub open spec fn spec_entries_match(entries: Seq<PyListPath>, ents: Seq<(u8, u8, Seq<char>)>) -> bool {
    entries.len() == ents.len() && (forall|i: int|
        0 <= i < ents.len() ==> (#[trigger] entries[i]).major == ents[i].0 && entries[i].minor
            == ents[i].1 && entries[i].executable_path@ == ents[i].2)
}


fn clone_entry(e: &PyListPath) -> (r: PyListPath)
    ensures
        r.major == e.major,
        r.minor == e.minor,
        r.executable_path@ == e.executable_path@,
{
    PyListPath {
        major: e.major,
        minor: e.minor,
        executable_path: e.executable_path.clone(),
    }
}

/// Starts discovery for a request string: a numeric request drives the
/// selector machinery; anything else is looked up as a bare name or, when
/// it holds a path separator, normalized and queried directly.
pub fn find_requested_python(
    request: &str,
    platform: Platform,
    dirs: Vec<String>,
    use_override: bool,
) -> (f: Finder)
    ensures
        f.wf(),
        f.stage is Scan,
        !f.default_mode,
        f.platform == platform,
        f.use_override == use_override,
        f.dirs == dirs,
        spec_at_start(f),
        (spec_selector_of(request@) matches Some(sel) ==> f.target is Selector && f.selector == sel
            && f.names.deep_view() == spec_possible_names(sel, platform.spec_is_windows())),
        (spec_selector_of(request@) is None && spec_contains(
            request@,
            spec_main_separator(platform),
        ) ==> (f.target matches SearchTarget::Path(p) && p@ == spec_normalize(
            request@,
            platform.spec_is_windows(),
        ))),
        (spec_selector_of(request@) is None && !spec_contains(
            request@,
            spec_main_separator(platform),
        ) ==> (f.target matches SearchTarget::Name(n) && n@ == request@)),
{
    match classify_request(request, platform) {
        PythonRequest::Version(selector) => {
            let names = selector.possible_names(platform);
            new_finder(selector, platform, dirs, use_override, false, SearchTarget::Selector, names)
        },
        PythonRequest::Name(name) => {
            new_finder(
                PythonVersionSelector::Default,
                platform,
                dirs,
                use_override,
                false,
                SearchTarget::Name(name),
                Vec::new(),
            )
        },
        PythonRequest::Path(path) => {
            let normalized = normalize_path(path.as_str(), platform.is_windows());
            new_finder(
                PythonVersionSelector::Default,
                platform,
                dirs,
                use_override,
                false,
                SearchTarget::Path(normalized),
                Vec::new(),
            )
        },
    }
}

/// Starts the default search and reports absence as a platform error.
pub fn find_default_python(platform: Platform, dirs: Vec<String>, use_override: bool) -> (f:
    Finder)
    ensures
        f.wf(),
        f.stage is Scan,
        f.default_mode,
        f.platform == platform,
        f.use_override == use_override,
        f.dirs == dirs,
        spec_at_start(f),
        f.target is Selector,
        f.selector is Default,
        f.names.deep_view() == spec_possible_names(
            PythonVersionSelector::Default,
            platform.spec_is_windows(),
        ),
{
    let selector = PythonVersionSelector::Default;
    let names = selector.possible_names(platform);
    new_finder(selector, platform, dirs, use_override, true, SearchTarget::Selector, names)
}

/// The default search, with absence reported as an empty result instead
/// of an error.
pub fn try_find_default_python(platform: Platform, dirs: Vec<String>, use_override: bool) -> (f:
    Finder)
    ensures
        f.wf(),
        f.stage is Scan,
        !f.default_mode,
        f.platform == platform,
        f.use_override == use_override,
        f.dirs == dirs,
        spec_at_start(f),
        f.target is Selector,
        f.selector is Default,
        f.names.deep_view() == spec_possible_names(
            PythonVersionSelector::Default,
            platform.spec_is_windows(),
        ),
{
    let selector = PythonVersionSelector::Default;
    let names = selector.possible_names(platform);
    new_finder(selector, platform, dirs, use_override, false, SearchTarget::Selector, names)
}

fn new_finder(
    selector: PythonVersionSelector,
    platform: Platform,
    dirs: Vec<String>,
    use_override: bool,
    default_mode: bool,
    target: SearchTarget,
    names: Vec<String>,
) -> (f: Finder)
    requires
        names.len() <= 8,
    ensures
        f.wf(),
        f.stage is Scan,
        f.selector == selector,
        f.platform == platform,
        f.use_override == use_override,
        f.default_mode == default_mode,
        f.target == target,
        f.names == names,
        f.dirs == dirs,
        spec_at_start(f),
{
    Finder {
        selector,
        platform,
        use_override,
        default_mode,
        target,
        names,
        dirs,
        dir_idx: 0,
        name_idx: 0,
        pending: Vec::new(),
        pend_idx: 0,
        pending_shim: false,
        entries: Vec::new(),
        entry_idx: 0,
        stage: Stage::Scan,
    }
}

} // verus!
