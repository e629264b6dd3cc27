use vaspsetup::config::Config;
use vaspsetup::state::{AppState, CalcType, FlowPath, SpeciesInfo, SpinMode, TstMethod};

fn test_config() -> Config {
    Config::default()
}

fn moment(v: f64) -> String {
    format!("{}", v)
}

#[test]
fn test_calc_type_preset_names() {
    assert_eq!(CalcType::SinglePoint.preset_name(), "single_point");
    assert_eq!(CalcType::GeometryOpt.preset_name(), "geometry_opt");
    assert_eq!(CalcType::Tst.preset_name(), "neb");
}

#[test]
fn test_calc_type_vasp_binary() {
    assert_eq!(CalcType::SinglePoint.vasp_binary(), "vasp_std");
    assert_eq!(CalcType::GeometryOpt.vasp_binary(), "vasp_std");
    assert_eq!(CalcType::Tst.vasp_binary(), "vasp_neb");
}

#[test]
fn test_calc_type_all_count() {
    assert_eq!(CalcType::all().len(), 8);
}

#[test]
fn test_tst_method_preset_names() {
    assert_eq!(TstMethod::Neb.preset_name(), "neb");
    assert_eq!(TstMethod::CiNeb.preset_name(), "ci_neb");
    assert_eq!(TstMethod::Dimer.preset_name(), "dimer");
}

#[test]
fn test_tst_method_uses_images() {
    assert!(TstMethod::Neb.uses_images());
    assert!(TstMethod::CiNeb.uses_images());
    assert!(!TstMethod::Dimer.uses_images());
}

#[test]
fn test_tst_method_all_count() {
    assert_eq!(TstMethod::all().len(), 3);
}

#[test]
fn test_effective_preset_name() {
    let cfg = test_config();
    let mut state = AppState::new("/tmp".to_string(), vec![], &cfg);

    state.calc_type = Some(CalcType::SinglePoint);
    assert_eq!(state.effective_preset_name(), "single_point");

    state.calc_type = Some(CalcType::Tst);
    state.tst_method = Some(TstMethod::CiNeb);
    assert_eq!(state.effective_preset_name(), "ci_neb");

    state.tst_method = Some(TstMethod::Dimer);
    assert_eq!(state.effective_preset_name(), "dimer");
}

#[test]
fn test_total_steps_with_tst() {
    let cfg = test_config();
    let mut state = AppState::new("/tmp".to_string(), vec![], &cfg);

    state.flow_path = Some(FlowPath::PerformCalculation);
    state.spin_mode = Some(SpinMode::Restricted);
    assert_eq!(state.total_steps(), 6);

    state.calc_type = Some(CalcType::Tst);
    state.tst_method = Some(TstMethod::Dimer);
    assert_eq!(state.total_steps(), 5);

    state.tst_method = Some(TstMethod::Neb);
    assert_eq!(state.total_steps(), 5);

    state.tst_method = Some(TstMethod::CiNeb);
    state.spin_mode = Some(SpinMode::Unrestricted);
    assert_eq!(state.total_steps(), 6);
}

#[test]
fn test_magmom_string() {
    let cfg = test_config();
    let mut state = AppState::new("/tmp".to_string(), vec![], &cfg);
    state.species = vec![
        SpeciesInfo { symbol: "Fe".into(), count: 2 },
        SpeciesInfo { symbol: "O".into(), count: 3 },
    ];
    state.magmom_per_species = vec![moment(5.0), moment(0.6)];
    assert_eq!(state.magmom_string(), Some("2*5 3*0.6".to_string()));
}

#[test]
fn test_magmom_string_empty() {
    let cfg = test_config();
    let state = AppState::new("/tmp".to_string(), vec![], &cfg);
    assert_eq!(state.magmom_string(), None);
}

#[test]
fn test_total_steps() {
    let cfg = test_config();
    let mut state = AppState::new("/tmp".to_string(), vec![], &cfg);
    assert_eq!(state.total_steps(), 0);

    state.flow_path = Some(FlowPath::QuickSubmit);
    assert_eq!(state.total_steps(), 1);

    state.flow_path = Some(FlowPath::PerformCalculation);
    state.spin_mode = Some(SpinMode::Restricted);
    assert_eq!(state.total_steps(), 6);

    state.spin_mode = Some(SpinMode::Unrestricted);
    assert_eq!(state.total_steps(), 7);
}

#[test]
fn test_new_defaults_from_config() {
    let cfg = test_config();
    let state = AppState::new("/work".to_string(), vec!["POSCAR".into()], &cfg);
    assert_eq!(state.queue, "long");
    assert_eq!(state.cores, 64);
    assert_eq!(state.kpoints, [1, 1, 1]);
    assert_eq!(state.files.len(), 1);
}

#[test]
fn test_vasp_binary_derived() {
    let cfg = test_config();
    let mut state = AppState::new("/tmp".to_string(), vec![], &cfg);
    assert_eq!(state.vasp_binary(), "vasp_std");

    state.calc_type = Some(CalcType::Tst);
    assert_eq!(state.vasp_binary(), "vasp_neb");

    state.calc_type = Some(CalcType::SinglePoint);
    assert_eq!(state.vasp_binary(), "vasp_std");
}

#[test]
fn vasp_binary_override_wins() {
    let cfg = test_config();
    let mut state = AppState::new("/tmp".to_string(), vec![], &cfg);
    state.calc_type = Some(CalcType::Tst);
    state.vasp_binary_override = Some("vasp_gam".into());
    assert_eq!(state.vasp_binary(), "vasp_gam");
}

#[test]
fn magmom_string_uses_shorter_list() {
    let cfg = test_config();
    let mut state = AppState::new("/tmp".to_string(), vec![], &cfg);
    state.species = vec![
        SpeciesInfo { symbol: "Fe".into(), count: 12 },
        SpeciesInfo { symbol: "O".into(), count: 3 },
    ];
    state.magmom_per_species = vec![moment(-1.5)];
    assert_eq!(state.magmom_string(), Some("12*-1.5".to_string()));
}

#[test]
fn detect_images_counts_intermediate_directories() {
    let names = |v: &[&str]| v.iter().map(|s| s.to_string()).collect::<Vec<String>>();
    assert_eq!(AppState::detect_images(&names(&["00", "01", "02", "03", "04"])), Some(3));
    assert_eq!(AppState::detect_images(&names(&["02", "00", "01", "other"])), Some(1));
    assert_eq!(AppState::detect_images(&names(&["00", "01"])), None);
    assert_eq!(AppState::detect_images(&names(&["01", "02", "03"])), None);
    assert_eq!(AppState::detect_images(&names(&["00", "01", "03"])), None);
    assert_eq!(AppState::detect_images(&names(&[])), None);
}

#[test]
fn display_names() {
    assert_eq!(CalcType::Tst.display_name(), "Transition State");
    assert_eq!(CalcType::Pdos.display_name(), "PDOS");
    assert_eq!(TstMethod::CiNeb.display_name(), "CI-NEB (Climbing Image NEB)");
}
