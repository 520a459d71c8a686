use python_discovery::finder::Action;
use python_discovery::finder::LauncherEvent;
use python_discovery::finder::Provenance;
use python_discovery::finder::QueryOutcome;
use python_discovery::finder::SearchResult;
use python_discovery::finder::SearchTarget;
use python_discovery::finder::Stage;
use python_discovery::finder::find_default_python;
use python_discovery::finder::find_requested_python;
use python_discovery::finder::try_find_default_python;
use python_discovery::interpreter::Error;
use python_discovery::interpreter::Interpreter;
use python_discovery::version::Platform;

fn interp(major: u8, minor: u8, patch: u8, path: &str) -> Interpreter {
    Interpreter::new(major, minor, patch, String::from(path))
}

#[test]
fn no_such_python_version() {
    let request = "3.1000";
    let mut finder = find_requested_python(request, Platform::Unix, vec![], false);
    match finder.advance() {
        Action::Done(SearchResult::NotFound) => {}
        _ => panic!("expected an empty result"),
    }
    let err = Error::NoSuchPython(String::from(request));
    assert_eq!(
        err.message(),
        "No Python 3.1000 In `PATH`. Is Python 3.1000 installed?"
    );
}

#[test]
fn no_such_python_binary() {
    let request = "python3.1000";
    let mut finder = find_requested_python(request, Platform::Unix, vec![], false);
    match finder.advance() {
        Action::Done(SearchResult::NotFound) => {}
        _ => panic!("expected an empty result"),
    }
    let err = Error::NoSuchPython(String::from(request));
    assert_eq!(
        err.message(),
        "No Python python3.1000 In `PATH`. Is Python python3.1000 installed?"
    );
}

#[test]
fn nonexistent_path_request_propagates_query_failure() {
    let mut finder = find_requested_python("/does/not/exists/python3.12", Platform::Unix, vec![], false);
    match finder.advance() {
        Action::Query {
            path,
            provenance: Provenance::Direct,
        } => assert_eq!(path, "/does/not/exists/python3.12"),
        _ => panic!("an explicit path must be queried directly"),
    }
    let detail = String::from("No such file or directory (os error 2)");
    match finder.on_query(QueryOutcome::Failed(detail)) {
        Action::Done(SearchResult::Failed(Error::QueryFailed { path, detail })) => {
            assert_eq!(path, "/does/not/exists/python3.12");
            assert_eq!(detail, "No such file or directory (os error 2)");
        }
        _ => panic!("a fatal query failure must propagate verbatim"),
    }
}

#[test]
fn selector_scan_of_missing_directories_finds_nothing() {
    let dirs = vec![String::from("/this/directory/does/not/exist")];
    let mut finder = find_requested_python("3.10", Platform::Unix, dirs, false);
    match finder.advance() {
        Action::Done(SearchResult::NotFound) => {}
        _ => panic!("expected an empty result"),
    }
}

#[test]
fn bare_name_resolution_through_search_path() {
    let dirs = vec![String::from("/bin"), String::from("/usr/bin")];
    let mut finder = find_requested_python("sh", Platform::Unix, dirs, false);
    match finder.advance() {
        Action::Query {
            path,
            provenance: Provenance::Direct,
        } => assert!(path.ends_with("/sh"), "unexpected path {path}"),
        _ => panic!("expected `sh` to resolve on the search path"),
    }
}

#[test]
fn default_search_reports_platform_error() {
    let mut finder = find_default_python(Platform::Unix, vec![], false);
    match finder.advance() {
        Action::Done(SearchResult::Failed(Error::NoPythonInstalledUnix)) => {}
        _ => panic!("the default search must report absence as an error"),
    }
    let mut finder = try_find_default_python(Platform::Unix, vec![], false);
    match finder.advance() {
        Action::Done(SearchResult::NotFound) => {}
        _ => panic!("the fallible default search reports absence as empty"),
    }
}

#[test]
fn override_disables_launcher_fallback() {
    let mut with_override = find_requested_python("3.12", Platform::Windows, vec![], true);
    match with_override.advance() {
        Action::Done(SearchResult::NotFound) => {}
        _ => panic!("an override search path must disable the launcher"),
    }
    let mut without_override = find_requested_python("3.12", Platform::Windows, vec![], false);
    match without_override.advance() {
        Action::RunLauncher => {}
        _ => panic!("exhausting the search path on Windows runs the launcher"),
    }
}

#[test]
fn launcher_flow_accepts_matching_minor() {
    let mut finder = find_requested_python("3.10", Platform::Windows, vec![], false);
    assert!(matches!(finder.advance(), Action::RunLauncher));
    let listing = String::from(
        " -V:3.12          C:\\Python312\\python.exe\r\n -V:3.10          C:\\Python310\\python.exe\r\n",
    );
    match finder.on_launcher(LauncherEvent::Listing(listing)) {
        Action::Continue => {}
        _ => panic!("a listing is walked entry by entry"),
    }
    // The 3.12 entry is rejected on its declared version without a query.
    match finder.advance() {
        Action::Query {
            path,
            provenance: Provenance::LauncherEntry,
        } => assert_eq!(path, "C:\\Python310\\python.exe"),
        _ => panic!("expected the 3.10 entry to be queried"),
    }
    match finder.on_query(QueryOutcome::Reported(interp(3, 10, 7, "C:\\Python310\\python.exe"))) {
        Action::Done(SearchResult::Found(found)) => {
            // A major.minor request accepts any patch level.
            assert_eq!(found.major, 3);
            assert_eq!(found.minor, 10);
            assert_eq!(found.patch, 7);
        }
        _ => panic!("a matching interpreter is accepted at once"),
    }
}

#[test]
fn patch_request_rejects_other_patch_and_continues() {
    let mut finder = find_requested_python("3.12.1", Platform::Windows, vec![], false);
    assert!(matches!(finder.advance(), Action::RunLauncher));
    let listing = String::from(" -V:3.12          C:\\Python312\\python.exe\r\n");
    assert!(matches!(
        finder.on_launcher(LauncherEvent::Listing(listing)),
        Action::Continue
    ));
    match finder.advance() {
        Action::Query {
            path,
            provenance: Provenance::LauncherEntry,
        } => assert_eq!(path, "C:\\Python312\\python.exe"),
        _ => panic!("a patch request still queries the matching entry"),
    }
    // The interpreter reports patch 2 where patch 1 was requested.
    match finder.on_query(QueryOutcome::Reported(interp(3, 12, 2, "C:\\Python312\\python.exe"))) {
        Action::Continue => {}
        _ => panic!("a mismatching patch must be rejected, not fatal"),
    }
    match finder.advance() {
        Action::Done(SearchResult::NotFound) => {}
        _ => panic!("nothing else to try"),
    }
}

#[test]
fn legacy_interpreter_is_skipped_for_modern_request() {
    let mut finder = find_requested_python("3.12", Platform::Unix, vec![], false);
    finder.stage = Stage::AwaitQuery {
        path: String::from("/old/bin/python"),
        provenance: Provenance::PathScan,
    };
    match finder.on_query(QueryOutcome::Legacy) {
        Action::Continue => {}
        _ => panic!("a legacy interpreter must not block a modern request"),
    }
    match finder.advance() {
        Action::Done(SearchResult::NotFound) => {}
        _ => panic!("the scan continues past the legacy interpreter"),
    }
}

#[test]
fn legacy_interpreter_is_fatal_for_legacy_request() {
    let mut finder = find_requested_python("2.7", Platform::Unix, vec![], false);
    finder.stage = Stage::AwaitQuery {
        path: String::from("/old/bin/python"),
        provenance: Provenance::PathScan,
    };
    match finder.on_query(QueryOutcome::Legacy) {
        Action::Done(SearchResult::Failed(Error::Python2OrOlder)) => {}
        _ => panic!("asking for a legacy major propagates the legacy error"),
    }
}

#[test]
fn fatal_query_stops_the_scan_at_once() {
    let mut finder = find_requested_python("3.12", Platform::Unix, vec![], false);
    finder.stage = Stage::AwaitQuery {
        path: String::from("/broken/bin/python3.12"),
        provenance: Provenance::PathScan,
    };
    match finder.on_query(QueryOutcome::Failed(String::from("permission denied"))) {
        Action::Done(SearchResult::Failed(Error::QueryFailed { path, detail })) => {
            assert_eq!(path, "/broken/bin/python3.12");
            assert_eq!(detail, "permission denied");
        }
        _ => panic!("a non-legacy query failure is fatal"),
    }
}

#[test]
fn shim_candidate_failures_are_absorbed() {
    let mut finder = find_requested_python("3.12", Platform::Windows, vec![], true);
    finder.stage = Stage::AwaitQuery {
        path: String::from("C:\\pyenv\\python.bat"),
        provenance: Provenance::Shim,
    };
    match finder.on_query(QueryOutcome::Failed(String::from("no version selected"))) {
        Action::Continue => {}
        _ => panic!("an unusable shim is skipped, not fatal"),
    }
}

#[test]
fn store_shim_is_skipped_during_scan() {
    let mut finder = find_requested_python("3.12", Platform::Windows, vec![], false);
    finder.pending = vec![String::from(
        r"C:\Users\crmar\AppData\Local\Microsoft\WindowsApps\python3.12.exe",
    )];
    finder.pend_idx = 0;
    match finder.advance() {
        Action::RunLauncher => {}
        _ => panic!("the store shim must be filtered out, leaving nothing"),
    }
}

#[test]
fn launcher_spawn_failure_modes() {
    let mut finder = find_requested_python("3.12", Platform::Windows, vec![], false);
    assert!(matches!(finder.advance(), Action::RunLauncher));
    match finder.on_launcher(LauncherEvent::SpawnNotFound) {
        Action::Done(SearchResult::NotFound) => {}
        _ => panic!("a missing launcher is not an error"),
    }

    let mut finder = find_requested_python("3.12", Platform::Windows, vec![], false);
    assert!(matches!(finder.advance(), Action::RunLauncher));
    match finder.on_launcher(LauncherEvent::BadStatus {
        status: String::from("exit code: 103"),
        stdout: String::from("out"),
        stderr: String::from("err"),
    }) {
        Action::Done(SearchResult::Failed(Error::PythonSubcommandOutput {
            message,
            exit_code,
            stdout,
            stderr,
        })) => {
            assert_eq!(
                message,
                "Running `py --list-paths` failed with status exit code: 103"
            );
            assert_eq!(exit_code, "exit code: 103");
            assert_eq!(stdout, "out");
            assert_eq!(stderr, "err");
        }
        _ => panic!("a failed launcher run is a typed error"),
    }

    let mut finder = find_requested_python("3.12", Platform::Windows, vec![], false);
    assert!(matches!(finder.advance(), Action::RunLauncher));
    match finder.on_launcher(LauncherEvent::NotUtf8 {
        detail: String::from("invalid utf-8 sequence"),
        status: String::from("exit code: 0"),
        stdout: String::from("lossy"),
        stderr: String::from(""),
    }) {
        Action::Done(SearchResult::Failed(Error::PythonSubcommandOutput { message, .. })) => {
            assert_eq!(
                message,
                "The stdout of `py --list-paths` isn't UTF-8 encoded: invalid utf-8 sequence"
            );
        }
        _ => panic!("undecodable launcher output is a typed error"),
    }

    let mut finder = find_requested_python("3.12", Platform::Windows, vec![], false);
    assert!(matches!(finder.advance(), Action::RunLauncher));
    match finder.on_launcher(LauncherEvent::SpawnFailed(String::from("interrupted"))) {
        Action::Done(SearchResult::Failed(Error::PyList(detail))) => {
            assert_eq!(detail, "interrupted")
        }
        _ => panic!("another spawn failure is a typed error"),
    }
}

#[test]
fn bare_name_matches_launcher_entry_by_stem() {
    let mut finder = find_requested_python("python3.12", Platform::Windows, vec![], false);
    match finder.advance() {
        Action::RunLauncher => {}
        _ => panic!("nothing on the search path, so the launcher runs"),
    }
    let listing = String::from(
        " -V:3.11          C:\\Python311\\python.exe\r\n -V:3.12          C:\\Python312\\python3.12.exe\r\n",
    );
    match finder.on_launcher(LauncherEvent::Listing(listing)) {
        Action::Query {
            path,
            provenance: Provenance::Direct,
        } => assert_eq!(path, "C:\\Python312\\python3.12.exe"),
        _ => panic!("the stem `python3.12` matches the second entry"),
    }
    match finder.on_query(QueryOutcome::Reported(interp(3, 12, 0, "C:\\Python312\\python3.12.exe"))) {
        Action::Done(SearchResult::Found(found)) => assert_eq!(found.minor, 12),
        _ => panic!("a bare-name hit is returned as queried"),
    }
}

#[test]
fn discovery_is_deterministic_for_equal_answers() {
    let run = || {
        let mut finder = find_requested_python("3.12.1", Platform::Windows, vec![], false);
        let mut last = finder.advance();
        loop {
            match last {
                Action::RunLauncher => {
                    last = finder.on_launcher(LauncherEvent::Listing(String::from(
                        " -V:3.12          C:\\Python312\\python.exe\r\n",
                    )));
                }
                Action::Query { .. } => {
                    last = finder.on_query(QueryOutcome::Reported(interp(
                        3,
                        12,
                        1,
                        "C:\\Python312\\python.exe",
                    )));
                }
                Action::Continue => {
                    last = finder.advance();
                }
                Action::Done(result) => return result,
            }
        }
    };
    let first = run();
    let second = run();
    match (first, second) {
        (SearchResult::Found(a), SearchResult::Found(b)) => {
            assert_eq!(a.major, b.major);
            assert_eq!(a.minor, b.minor);
            assert_eq!(a.patch, b.patch);
            assert_eq!(a.executable, b.executable);
            assert_eq!(a.executable, "C:\\Python312\\python.exe");
        }
        _ => panic!("both runs must find the same interpreter"),
    }
}

#[test]
fn request_classification_reaches_the_finder() {
    let finder = find_requested_python("python.exe", Platform::Windows, vec![], false);
    match &finder.target {
        SearchTarget::Name(n) => assert_eq!(n, "python.exe"),
        _ => panic!("expected a bare-name target"),
    }
    let finder = find_requested_python("/a/./b/../python3", Platform::Unix, vec![], false);
    match &finder.target {
        SearchTarget::Path(p) => assert_eq!(p, "/a/python3"),
        _ => panic!("expected a normalized path target"),
    }
}

#[test]
fn legacy_launcher_entry_is_skipped_for_modern_request() {
    let mut finder = find_requested_python("3", Platform::Windows, vec![], false);
    assert!(matches!(finder.advance(), Action::RunLauncher));
    let listing = String::from(" -V:3.12          C:\\Python312\\python.exe\r\n");
    assert!(matches!(
        finder.on_launcher(LauncherEvent::Listing(listing)),
        Action::Continue
    ));
    match finder.advance() {
        Action::Query {
            provenance: Provenance::LauncherEntry,
            ..
        } => {}
        _ => panic!("the matching entry is queried"),
    }
    match finder.on_query(QueryOutcome::Legacy) {
        Action::Continue => {}
        _ => panic!("a legacy launcher entry must not block a modern request"),
    }
    match finder.advance() {
        Action::Done(SearchResult::NotFound) => {}
        _ => panic!("the listing is exhausted"),
    }
}
