use vaspsetup::report::write_summary;
use vaspsetup::screens::result::JobResult;

fn job(name: &str, success: bool, job_id: Option<&str>) -> JobResult {
    JobResult {
        job_name: name.to_string(),
        success,
        job_id: job_id.map(|s| s.to_string()),
        message: String::new(),
    }
}

fn run_summary(results: &[JobResult]) -> (String, String) {
    write_summary(results)
}

#[test]
fn test_summary_empty() {
    let (out, err) = run_summary(&[]);
    assert!(out.is_empty());
    assert!(err.is_empty());
}

#[test]
fn test_summary_single_with_id() {
    let (out, err) = run_summary(&[job("sp_Fe2O3", true, Some("123456"))]);
    assert_eq!(out, "vaspsetup: submitted sp_Fe2O3 (Job ID: 123456)\n");
    assert!(err.is_empty());
}

#[test]
fn test_summary_single_no_id() {
    let (out, err) = run_summary(&[job("sp_Fe2O3", true, None)]);
    assert_eq!(out, "vaspsetup: submitted sp_Fe2O3\n");
    assert!(err.is_empty());
}

#[test]
fn test_summary_multiple_with_ids() {
    let results = vec![
        job("sp_01", true, Some("123")),
        job("sp_02", true, Some("456")),
        job("sp_03", true, Some("789")),
    ];
    let (out, err) = run_summary(&results);
    assert!(out.contains("submitted 3 job(s)"));
    assert!(out.contains("123, 456, 789"));
    assert!(err.is_empty());
}

#[test]
fn test_summary_multiple_no_ids() {
    let results = vec![job("sp_01", true, None), job("sp_02", true, None)];
    let (out, err) = run_summary(&results);
    assert_eq!(out, "vaspsetup: submitted 2 job(s)\n");
    assert!(err.is_empty());
}

#[test]
fn test_summary_all_failed() {
    let (out, err) = run_summary(&[job("sp_01", false, None)]);
    assert!(out.is_empty());
    assert_eq!(err, "vaspsetup: 1 job(s) failed\n");
}

#[test]
fn test_summary_mixed_success_and_failure() {
    let results = vec![job("sp_01", true, Some("123")), job("sp_02", false, None)];
    let (out, err) = run_summary(&results);
    assert!(out.contains("submitted sp_01 (Job ID: 123)"));
    assert!(err.contains("1 job(s) failed"));
}

#[test]
fn summary_multiple_with_some_ids_exact() {
    let results = vec![
        job("a", true, None),
        job("b", true, Some("7")),
        job("c", false, None),
        job("d", true, Some("9")),
        job("e", false, None),
    ];
    let (out, err) = run_summary(&results);
    assert_eq!(out, "vaspsetup: submitted 3 job(s) — IDs: 7, 9\n");
    assert_eq!(err, "vaspsetup: 2 job(s) failed\n");
}

#[test]
fn summary_single_success_after_failure() {
    let results = vec![job("x", false, None), job("y", true, Some("42"))];
    let (out, err) = run_summary(&results);
    assert_eq!(out, "vaspsetup: submitted y (Job ID: 42)\n");
    assert_eq!(err, "vaspsetup: 1 job(s) failed\n");
}
