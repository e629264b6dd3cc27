use vaspsetup::python::{
    find_python, invalid_json, is_python_39_or_later, parse_python_version, reply_outcome,
    silent_failure, PythonError,
};

#[test]
fn test_python_error_display() {
    let err = PythonError::NotInstalled;
    assert!(err.message().contains("Python not found"));

    let err = PythonError::BackendError("test error".into());
    assert_eq!(err.message(), "test error");
}

#[test]
fn test_parse_python_version() {
    assert_eq!(parse_python_version("Python 3.12.2"), Some((3, 12)));
    assert_eq!(parse_python_version("Python 3.9.19"), Some((3, 9)));
    assert_eq!(parse_python_version("Python 2.7.18"), Some((2, 7)));
    assert_eq!(parse_python_version("Python 3.14.0"), Some((3, 14)));
    assert_eq!(parse_python_version("  Python 3.12.2\n"), Some((3, 12)));
    assert_eq!(parse_python_version("not python"), None);
    assert_eq!(parse_python_version(""), None);
}

#[test]
fn test_python_version_check() {
    // 3.9+ should pass
    assert!(parse_python_version("Python 3.12.2")
        .map(|(maj, min)| maj == 3 && min >= 9)
        .unwrap_or(false));
    assert!(parse_python_version("Python 3.9.0")
        .map(|(maj, min)| maj == 3 && min >= 9)
        .unwrap_or(false));

    // Python 2 should fail
    assert!(!parse_python_version("Python 2.7.18")
        .map(|(maj, min)| maj == 3 && min >= 9)
        .unwrap_or(false));

    // Python 3.8 should fail
    assert!(!parse_python_version("Python 3.8.10")
        .map(|(maj, min)| maj == 3 && min >= 9)
        .unwrap_or(false));
}

#[test]
fn parse_python_version_edge_cases() {
    assert_eq!(parse_python_version("Python 3"), None);
    assert_eq!(parse_python_version("Python 3.x"), None);
    assert_eq!(parse_python_version("Python 3.10"), Some((3, 10)));
    assert_eq!(parse_python_version("Python +3.+9"), Some((3, 9)));
    assert_eq!(parse_python_version("python 3.9.1"), None);
}

#[test]
fn version_check_uses_stderr_when_stdout_blank() {
    assert!(is_python_39_or_later("Python 3.11.4\n", ""));
    assert!(is_python_39_or_later("  \n", "Python 3.9.1"));
    assert!(!is_python_39_or_later("", "Python 2.7.18"));
    assert!(!is_python_39_or_later("garbage", "Python 3.11.0"));
}

#[test]
fn find_python_prefers_python() {
    let good = Some(("Python 3.10.0".to_string(), String::new()));
    let old = Some(("Python 2.7.1".to_string(), String::new()));
    assert_eq!(find_python(&good), "python");
    assert_eq!(find_python(&old), "python3");
    assert_eq!(find_python(&None), "python3");
}

#[test]
fn error_messages_exact() {
    assert_eq!(
        PythonError::ModuleNotFound.message(),
        "vaspsetup_core not installed. Run: pip install vaspsetup-ase"
    );
    assert_eq!(
        PythonError::ProcessFailed("boom".into()).message(),
        "Python backend failed: boom"
    );
    assert_eq!(
        PythonError::InvalidResponse("odd".into()).message(),
        "Unexpected response from backend: odd"
    );
    assert_eq!(
        PythonError::NotInstalled.message(),
        "Python not found. Install Python 3.9+."
    );
}

#[test]
fn silent_failure_classifies_stderr() {
    let e = silent_failure("Traceback...\nModuleNotFoundError: No module named 'vaspsetup_core'\n");
    assert!(matches!(e, PythonError::ModuleNotFound));
    let e = silent_failure("  segfault  \n");
    assert_eq!(e.message(), "Python backend failed: No output. stderr: segfault");
}

#[test]
fn invalid_json_message() {
    let e = invalid_json("expected value", "  {oops \n");
    assert_eq!(
        e.message(),
        "Unexpected response from backend: Invalid JSON: expected value. Raw: {oops"
    );
}

#[test]
fn reply_outcome_cases() {
    assert!(reply_outcome(&Some("ok".into()), true, &None, "{}").is_ok());
    let e = reply_outcome(&Some("ok".into()), false, &None, "{}").unwrap_err();
    assert_eq!(e.message(), "Unexpected response from backend: Missing 'data' field");
    let e = reply_outcome(&Some("error".into()), false, &Some("no file".into()), "{}").unwrap_err();
    assert_eq!(e.message(), "no file");
    let e = reply_outcome(&Some("error".into()), false, &None, "{}").unwrap_err();
    assert_eq!(e.message(), "Unknown backend error");
    let e = reply_outcome(&None, true, &None, " {\"x\":1} ").unwrap_err();
    assert_eq!(e.message(), "Unexpected response from backend: Invalid 'status' field: {\"x\":1}");
}

#[test]
fn later_major_versions_accepted() {
    assert!(is_python_39_or_later("Python 4.0.1", ""));
    assert!(is_python_39_or_later("Python 3.9.0", ""));
    assert!(!is_python_39_or_later("Python 3.8.10", ""));
    assert!(!is_python_39_or_later("Python 2.7.18", ""));
}
