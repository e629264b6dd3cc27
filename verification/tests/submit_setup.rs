use vaspsetup::config::Config;
use vaspsetup::screens::submit_setup::SubmitSetupScreen;
use vaspsetup::screens::{Key, ScreenAction, TextBuffer};
use vaspsetup::state::{AppState, FlowPath};

fn quick_submit_state() -> AppState {
    let cfg = Config::default();
    let mut state = AppState::new(
        "/home/user/vasp/calc".to_string(),
        vec!["POSCAR".into(), "INCAR".into(), "KPOINTS".into()],
        &cfg,
    );
    state.flow_path = Some(FlowPath::QuickSubmit);
    state
}

fn normal_state() -> AppState {
    let cfg = Config::default();
    let mut state = AppState::new(
        "/home/user/vasp/calc".to_string(),
        vec!["POSCAR".into()],
        &cfg,
    );
    state.flow_path = Some(FlowPath::PerformCalculation);
    state
}

#[test]
fn test_quick_submit_no_output_dir() {
    let state = quick_submit_state();
    let screen = SubmitSetupScreen::new(&state);

    assert!(screen.is_quick);
    assert!(screen.idx_output_dir.is_none());
    assert!(screen.idx_vasp_binary.is_some());
    assert_eq!(screen.labels.len(), 4);
    assert_eq!(screen.labels[0], "Job name");
    assert_eq!(screen.labels[3], "VASP binary");
}

#[test]
fn test_normal_flow_has_output_dir() {
    let state = normal_state();
    let screen = SubmitSetupScreen::new(&state);

    assert!(!screen.is_quick);
    assert!(screen.idx_output_dir.is_some());
    assert!(screen.idx_vasp_binary.is_none());
    assert_eq!(screen.labels.len(), 4);
    assert_eq!(screen.labels[0], "Output directory");
}

#[test]
fn quick_submit_confirm_records_settings() {
    let mut state = quick_submit_state();
    let mut screen = SubmitSetupScreen::new(&state);
    screen.buffers[0] = TextBuffer::with_content("my job!");
    for _ in 0..4 {
        screen.handle_input(Key::Down, &mut state);
    }
    let action = screen.handle_input(Key::Enter, &mut state);
    assert_eq!(action, ScreenAction::Advance);
    assert_eq!(state.job_names, vec!["myjob".to_string()]);
    assert_eq!(state.queue, "long");
    assert_eq!(state.cores, 64);
    assert_eq!(state.vasp_binary_override.as_deref(), Some("vasp_std"));
}

#[test]
fn bad_cores_are_refused() {
    let mut state = normal_state();
    let mut screen = SubmitSetupScreen::new(&state);
    let cores = screen.idx_cores;
    screen.buffers[cores] = TextBuffer::with_content("0");
    for _ in 0..screen.buffers.len() {
        screen.handle_input(Key::Down, &mut state);
    }
    assert_eq!(screen.handle_input(Key::Enter, &mut state), ScreenAction::Continue);
    assert!(screen.error.is_some());
    assert_eq!(screen.focus, cores);
}
