use python_discovery::version::Platform;
use python_discovery::version::PythonRequest;
use python_discovery::version::PythonVersionSelector;
use python_discovery::version::classify_request;
use python_discovery::paths::file_name;
use python_discovery::paths::file_stem;
use python_discovery::paths::is_windows_store_shim;
use python_discovery::paths::normalize_path;
use python_discovery::launcher::parse_py_list_output;

#[test]
fn detect_shim() {
    assert!(is_windows_store_shim(
        r"C:\Users\crmar\AppData\Local\Microsoft\WindowsApps\python.exe"
    ));
    assert!(is_windows_store_shim(
        r"C:\Users\crmar\AppData\Local\Microsoft\WindowsApps\python3.exe"
    ));
    assert!(is_windows_store_shim(
        r"C:\Users\crmar\AppData\Local\Microsoft\WindowsApps\python3.12.exe"
    ));
    assert!(!is_windows_store_shim(
        r"C:\Users\crmar\AppData\Local\Microsoft\WindowsApps\PythonSoftwareFoundation.Python.3.11_qbs5n2kfra8p0\python.exe"
    ));
}

#[test]
fn shim_needs_absolute_path() {
    assert!(!is_windows_store_shim(
        r"AppData\Local\Microsoft\WindowsApps\python.exe"
    ));
    assert!(is_windows_store_shim(
        r"C:/Users/crmar/AppData/Local/Microsoft/WindowsApps/python3.exe"
    ));
    assert!(!is_windows_store_shim(
        r"C:\Users\crmar\AppData\Local\Microsoft\WindowsApps\ruby.exe"
    ));
    assert!(!is_windows_store_shim(
        r"C:\Users\crmar\AppData\Local\Microsoft\WindowsApps\python3"
    ));
}

#[test]
fn classify_numeric_requests() {
    match classify_request("3", Platform::Unix) {
        PythonRequest::Version(PythonVersionSelector::Major(3)) => {}
        _ => panic!("expected Major(3)"),
    }
    match classify_request("3.10", Platform::Unix) {
        PythonRequest::Version(PythonVersionSelector::MajorMinor(3, 10)) => {}
        _ => panic!("expected MajorMinor(3, 10)"),
    }
    match classify_request("3.10.1", Platform::Unix) {
        PythonRequest::Version(PythonVersionSelector::MajorMinorPatch(3, 10, 1)) => {}
        _ => panic!("expected MajorMinorPatch(3, 10, 1)"),
    }
}

#[test]
fn classify_accepts_plus_and_leading_zeros() {
    match classify_request("+3.010", Platform::Unix) {
        PythonRequest::Version(PythonVersionSelector::MajorMinor(3, 10)) => {}
        _ => panic!("expected MajorMinor(3, 10)"),
    }
}

#[test]
fn classify_non_numeric_requests() {
    match classify_request("3.10.1.2", Platform::Unix) {
        PythonRequest::Name(n) => assert_eq!(n, "3.10.1.2"),
        _ => panic!("four components are not a selector"),
    }
    match classify_request("python3.10", Platform::Unix) {
        PythonRequest::Name(n) => assert_eq!(n, "python3.10"),
        _ => panic!("expected a bare name"),
    }
    match classify_request("3.1000", Platform::Unix) {
        PythonRequest::Name(n) => assert_eq!(n, "3.1000"),
        _ => panic!("an overflowing component is not a selector"),
    }
    match classify_request("/home/user/.local/bin/python3.10", Platform::Unix) {
        PythonRequest::Path(p) => assert_eq!(p, "/home/user/.local/bin/python3.10"),
        _ => panic!("expected an explicit path"),
    }
    // On Unix a backslash is an ordinary character, so this is a bare name.
    match classify_request(r"C:\Python312\python.exe", Platform::Unix) {
        PythonRequest::Name(_) => {}
        _ => panic!("expected a bare name on Unix"),
    }
    match classify_request(r"C:\Python312\python.exe", Platform::Windows) {
        PythonRequest::Path(_) => {}
        _ => panic!("expected an explicit path on Windows"),
    }
}

#[test]
fn possible_names_most_specific_first_unix() {
    let names = PythonVersionSelector::MajorMinorPatch(3, 12, 1).possible_names(Platform::Unix);
    assert_eq!(names.len(), 4);
    assert_eq!(names[0], "python3.12.1");
    assert_eq!(names[1], "python3.12");
    assert_eq!(names[2], "python3");
    assert_eq!(names[3], "python");

    let names = PythonVersionSelector::MajorMinor(3, 10).possible_names(Platform::Unix);
    assert_eq!(names.len(), 3);
    assert_eq!(names[0], "python3.10");
    assert_eq!(names[1], "python3");
    assert_eq!(names[2], "python");

    let names = PythonVersionSelector::Major(3).possible_names(Platform::Unix);
    assert_eq!(names.len(), 2);
    assert_eq!(names[0], "python3");
    assert_eq!(names[1], "python");

    let names = PythonVersionSelector::Default.possible_names(Platform::Unix);
    assert_eq!(names.len(), 2);
    assert_eq!(names[0], "python3");
    assert_eq!(names[1], "python");
}

#[test]
fn possible_names_windows_extension() {
    let names = PythonVersionSelector::MajorMinor(3, 10).possible_names(Platform::Windows);
    assert_eq!(names.len(), 3);
    assert_eq!(names[0], "python3.10.exe");
    assert_eq!(names[1], "python3.exe");
    assert_eq!(names[2], "python.exe");

    let names = PythonVersionSelector::Default.possible_names(Platform::Windows);
    assert_eq!(names.len(), 2);
    assert_eq!(names[0], "python3.exe");
    assert_eq!(names[1], "python.exe");
}

#[test]
fn launcher_listing_is_parsed_in_order() {
    let out = " -V:3.12          C:\\Users\\Ferris\\AppData\\Local\\Programs\\Python\\Python312\\python.exe\r\n -V:3.8           C:\\Users\\Ferris\\AppData\\Local\\Programs\\Python\\Python38\\python.exe\r\n";
    let entries = parse_py_list_output(out);
    assert_eq!(entries.len(), 2);
    assert_eq!(entries[0].major, 3);
    assert_eq!(entries[0].minor, 12);
    assert_eq!(
        entries[0].executable_path,
        "C:\\Users\\Ferris\\AppData\\Local\\Programs\\Python\\Python312\\python.exe"
    );
    assert_eq!(entries[1].major, 3);
    assert_eq!(entries[1].minor, 8);
}

#[test]
fn launcher_listing_legacy_and_arm_forms() {
    let out = " -3.8           C:\\Python38\\python.exe\n -V:3.11-arm64   *  C:\\Python311\\python.exe\n";
    let entries = parse_py_list_output(out);
    assert_eq!(entries.len(), 2);
    assert_eq!(entries[0].major, 3);
    assert_eq!(entries[0].minor, 8);
    assert_eq!(entries[0].executable_path, "C:\\Python38\\python.exe");
    assert_eq!(entries[1].major, 3);
    assert_eq!(entries[1].minor, 11);
    assert_eq!(entries[1].executable_path, "C:\\Python311\\python.exe");
}

#[test]
fn launcher_listing_ignores_noise() {
    let out = "Installed Pythons found by py Launcher for Windows\n -V:3.1000     C:\\nope\\python.exe\nnot a line\n -V:3.12   C:\\ok\\python.exe\n";
    let entries = parse_py_list_output(out);
    assert_eq!(entries.len(), 1);
    assert_eq!(entries[0].major, 3);
    assert_eq!(entries[0].minor, 12);
    assert_eq!(entries[0].executable_path, "C:\\ok\\python.exe");
}

#[test]
fn file_name_and_stem() {
    assert_eq!(
        file_name(r"C:\Python312\python3.12.exe", true),
        Some(String::from("python3.12.exe"))
    );
    assert_eq!(file_name(r"C:\Python312\..", true), None);
    assert_eq!(file_stem("python3.12.exe"), "python3.12");
    assert_eq!(file_stem("python"), "python");
    assert_eq!(file_stem(".hidden"), ".hidden");
}

#[test]
fn normalize_path_is_lexical() {
    assert_eq!(
        normalize_path("/does/not/exists/python3.12", false),
        "/does/not/exists/python3.12"
    );
    assert_eq!(normalize_path("/a/./b/../c", false), "/a/c");
    assert_eq!(normalize_path("a/../../b", false), "b");
    assert_eq!(
        normalize_path(r"C:\does\not\exists\python3.12", true),
        r"C:\does\not\exists\python3.12"
    );
    assert_eq!(normalize_path(r"C:\a\.\b\..\c", true), r"C:\a\c");
}

#[test]
fn multi_digit_components_render_and_parse() {
    let names = PythonVersionSelector::MajorMinor(3, 255).possible_names(Platform::Unix);
    assert_eq!(names[0], "python3.255");
    let names = PythonVersionSelector::Major(10).possible_names(Platform::Unix);
    assert_eq!(names[0], "python10");
    match classify_request("255.255.255", Platform::Unix) {
        PythonRequest::Version(PythonVersionSelector::MajorMinorPatch(255, 255, 255)) => {}
        _ => panic!("255 still fits an eight-bit component"),
    }
    match classify_request("256", Platform::Unix) {
        PythonRequest::Name(n) => assert_eq!(n, "256"),
        _ => panic!("256 overflows an eight-bit component"),
    }
}

#[test]
fn empty_and_trailing_dot_requests_are_names() {
    match classify_request("", Platform::Unix) {
        PythonRequest::Name(n) => assert_eq!(n, ""),
        _ => panic!("an empty request is not a selector"),
    }
    match classify_request("3.", Platform::Unix) {
        PythonRequest::Name(n) => assert_eq!(n, "3."),
        _ => panic!("a trailing dot is not a selector"),
    }
}
