use vaspsetup::config::{Config, ConfigSource};

#[test]
fn test_default_values() {
    let config = Config::default();
    assert_eq!(config.cluster.scheduler, "sge");
    assert_eq!(config.cluster.default_queue, "long");
    assert_eq!(config.cluster.default_cores, 64);
    assert_eq!(config.vasp.default_executable, "vasp_std");
}

#[test]
fn test_load_valid_config_file() {
    let mut custom = Config::default();
    custom.cluster.default_queue = "short".into();
    custom.cluster.default_cores = 128;

    let (config, warning, write_default) =
        Config::load("/home/u/.vaspsetup/config.json", ConfigSource::Parsed(custom));
    assert!(warning.is_none());
    assert!(!write_default);
    assert_eq!(config.cluster.default_queue, "short");
    assert_eq!(config.cluster.default_cores, 128);
}

#[test]
fn test_load_invalid_json_warns_and_uses_defaults() {
    let (config, warning, write_default) = Config::load(
        "/home/u/.vaspsetup/config.json",
        ConfigSource::InvalidJson("key must be a string at line 1 column 3".into()),
    );

    // Should warn
    assert!(warning.is_some());
    assert!(warning.unwrap().contains("invalid JSON"));

    // Should use defaults
    assert_eq!(config.cluster.default_queue, "long");
    assert_eq!(config.cluster.default_cores, 64);

    // Should NOT overwrite the file
    assert!(!write_default);
}

#[test]
fn test_load_missing_file_creates_default() {
    let (config, warning, write_default) =
        Config::load("/home/u/.vaspsetup/config.json", ConfigSource::Missing);

    // No warning for missing file
    assert!(warning.is_none());

    // Uses defaults
    assert_eq!(config.cluster.default_queue, "long");

    // Writes the default file
    assert!(write_default);
}

#[test]
fn load_invalid_json_warning_text() {
    let (_, warning, _) = Config::load("/cfg.json", ConfigSource::InvalidJson("bad".into()));
    assert_eq!(
        warning.unwrap(),
        "Warning: /cfg.json has invalid JSON (bad). Using defaults."
    );
}

#[test]
fn load_unreadable_warning_text() {
    let (config, warning, write_default) =
        Config::load("/cfg.json", ConfigSource::Unreadable("permission denied".into()));
    assert_eq!(
        warning.unwrap(),
        "Warning: Could not read /cfg.json (permission denied). Using defaults."
    );
    assert_eq!(config.cluster.parallel_env, "mpi-*");
    assert_eq!(config.cluster.vasp_module, "vasp/6.4.0/");
    assert!(!write_default);
}
