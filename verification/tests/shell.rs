use vaspsetup::shell::{
    parse_job_id, qsub_outcome, qsub_unavailable, render_sge_script, sanitize_job_name,
    validate_script_param,
};

#[test]
fn test_sanitize_job_name_clean() {
    assert_eq!(sanitize_job_name("sp_Fe2O3_01"), "sp_Fe2O3_01");
}

#[test]
fn test_sanitize_job_name_dirty() {
    assert_eq!(sanitize_job_name("calc; rm -rf /"), "calcrm-rf");
}

#[test]
fn test_sanitize_job_name_spaces() {
    assert_eq!(sanitize_job_name("my job name"), "myjobname");
}

#[test]
fn test_sanitize_job_name_empty_fallback() {
    assert_eq!(sanitize_job_name(""), "vaspsetup_job");
    assert_eq!(sanitize_job_name("!!!"), "vaspsetup_job");
}

#[test]
fn sanitize_twice_is_sanitize_once() {
    let once = sanitize_job_name("a b;c-d_é");
    assert_eq!(once, "abc-d_é");
    assert_eq!(sanitize_job_name(&once), once);
}

#[test]
fn test_parse_job_id() {
    let output = "Your job 123456 (\"sp_Fe2O3\") has been submitted";
    assert_eq!(parse_job_id(output), Some("123456".to_string()));
}

#[test]
fn test_parse_job_id_non_numeric() {
    let output = "Some weird output format here";
    assert_eq!(parse_job_id(output), None);
}

#[test]
fn test_parse_job_id_no_match() {
    assert_eq!(parse_job_id(""), None);
    assert_eq!(parse_job_id("error"), None);
}

#[test]
fn test_render_sge_script() {
    let script = render_sge_script(
        "test_job", "long", 64, "mpi-*", "vasp/6.4.0/", "/work/calc", "vasp_std",
    )
    .unwrap();
    assert!(script.contains("#$ -N test_job"));
    assert!(script.contains("#$ -q long"));
    assert!(script.contains("#$ -pe mpi-* 64"));
    assert!(script.contains("module load vasp/6.4.0/"));
    assert!(script.contains("cd /work/calc"));
    assert!(script.contains("mpirun -np $NSLOTS vasp_std"));
}

#[test]
fn test_render_sge_script_injection_blocked() {
    let result = render_sge_script(
        "test", "long", 64, "mpi-*", "vasp/6.4.0/",
        "/work\nrm -rf /", "vasp_std",
    );
    assert!(result.is_err());
    assert!(result.unwrap_err().contains("newline"));
}

#[test]
fn test_render_sge_script_neb() {
    let script = render_sge_script(
        "neb_job", "short", 32, "mpi-*", "vasp/6.4.0/", "/work/neb", "vasp_neb",
    )
    .unwrap();
    assert!(script.contains("vasp_neb"));
}

#[test]
fn test_validate_script_param() {
    assert!(validate_script_param("normal_value", "test").is_ok());
    assert!(validate_script_param("has\nnewline", "test").is_err());
    assert!(validate_script_param("has\rreturn", "test").is_err());
}

#[test]
fn render_sge_script_exact_text() {
    let script = render_sge_script("j", "q", 8, "pe", "m", "/d", "vasp_gam").unwrap();
    assert_eq!(
        script,
        "#!/bin/bash\n#$ -N j\n#$ -q q\n#$ -pe pe 8\n#$ -cwd\nmodule load m\ncd /d\nmpirun -np $NSLOTS vasp_gam\n"
    );
}

#[test]
fn render_sge_script_names_first_bad_parameter() {
    let e = render_sge_script("j", "q\r", 8, "pe\n", "m", "/d", "v").unwrap_err();
    assert_eq!(e, "queue contains newline characters");
    let e = render_sge_script("j\n", "q", 8, "pe", "m", "/d", "v").unwrap_err();
    assert_eq!(e, "job_name contains newline characters");
    let e = render_sge_script("j", "q", 8, "pe", "m", "/d", "v\n").unwrap_err();
    assert_eq!(e, "vasp_cmd contains newline characters");
}

#[test]
fn validate_script_param_message() {
    assert_eq!(
        validate_script_param("x\ny", "queue").unwrap_err(),
        "queue contains newline characters"
    );
}

#[test]
fn parse_job_id_third_token_digits_only() {
    assert_eq!(parse_job_id("Your job 12a4 (\"x\") has been submitted"), None);
    assert_eq!(parse_job_id("  a   b   77  "), Some("77".to_string()));
}

#[test]
fn qsub_outcome_success_and_failure() {
    let ok = qsub_outcome(true, "Your job 555 (\"n\") has been submitted\n", "");
    assert!(ok.success);
    assert_eq!(ok.job_id, Some("555".to_string()));
    assert_eq!(ok.message, "Your job 555 (\"n\") has been submitted");

    let bad = qsub_outcome(false, "", "  denied \n");
    assert!(!bad.success);
    assert_eq!(bad.job_id, None);
    assert_eq!(bad.message, "Submission failed: denied");

    let missing = qsub_unavailable("No such file or directory (os error 2)");
    assert!(!missing.success);
    assert_eq!(missing.message, "qsub not available: No such file or directory (os error 2)");
}

#[test]
fn sanitize_twice_keeps_every_name() {
    for name in ["calc; rm -rf /", "!!", "", "  Fe2O3 run  ", "ünï-cödé_1"] {
        let once = sanitize_job_name(name);
        assert_eq!(sanitize_job_name(&once), once);
    }
}

#[test]
fn sanitize_ignores_surrounding_whitespace() {
    assert_eq!(sanitize_job_name("  my job\t\n"), sanitize_job_name("my job"));
    assert_eq!(sanitize_job_name("  my job\t\n"), "myjob");
}
