use vaspsetup::app::{
    failure_result, job_outcome, join_path, App, ExitReason, SubmitFailure, TransitionReplies,
};
use vaspsetup::config::Config;
use vaspsetup::incar::IncarValue;
use vaspsetup::python::PythonError;
use vaspsetup::screens::{ActiveScreen, Key, ScreenAction};
use vaspsetup::shell::qsub_outcome;
use vaspsetup::state::{AppState, CalcType, SpeciesInfo, SpinMode, TstMethod};

fn no_replies() -> TransitionReplies {
    TransitionReplies { preset: Ok(None), image_dirs: vec![], atoms: Ok(None) }
}

fn new_app(files: &[&str]) -> App {
    let cfg = Config::default();
    let state = AppState::new(
        "/work".to_string(),
        files.iter().map(|s| s.to_string()).collect(),
        &cfg,
    );
    App::new(state, Config::default())
}

fn press(app: &mut App, key: Key) -> ScreenAction {
    app.handle_input(key, &vec![])
}

fn advance(app: &mut App, replies: TransitionReplies) -> ActiveScreen {
    let next = app.next_screen().expect("a next screen");
    app.complete_advance(next, replies);
    next
}

#[test]
fn welcome_to_calc_type_flow() {
    let mut app = new_app(&["POSCAR"]);
    assert_eq!(app.current_screen, ActiveScreen::Welcome);
    assert_eq!(press(&mut app, Key::Char('y')), ScreenAction::Advance);
    assert_eq!(advance(&mut app, no_replies()), ActiveScreen::ChoosePath);
    assert_eq!(app.state.current_step, 0);

    // No path chosen yet: nowhere to go.
    assert_eq!(app.next_screen(), None);
    press(&mut app, Key::Down);
    assert_eq!(press(&mut app, Key::Enter), ScreenAction::Advance);
    assert_eq!(advance(&mut app, no_replies()), ActiveScreen::CalcType);
    assert_eq!(app.state.current_step, 1);
    assert_eq!(app.screen_history, vec![ActiveScreen::Welcome, ActiveScreen::ChoosePath]);
}

#[test]
fn quick_submit_goes_to_setup_then_result() {
    let mut app = new_app(&["POSCAR"]);
    press(&mut app, Key::Char('y'));
    advance(&mut app, no_replies());
    press(&mut app, Key::Enter);
    assert_eq!(advance(&mut app, no_replies()), ActiveScreen::SubmitSetup);
    assert!(app.submit_setup.as_ref().unwrap().is_quick);
    assert_eq!(app.next_screen(), Some(ActiveScreen::Result));
}

#[test]
fn tst_flow_loads_preset_and_counts_images() {
    let mut app = new_app(&["POSCAR"]);
    press(&mut app, Key::Char('y'));
    advance(&mut app, no_replies());
    press(&mut app, Key::Down);
    press(&mut app, Key::Enter);
    advance(&mut app, no_replies());
    // Transition state is the last calculation type.
    for _ in 0..7 {
        press(&mut app, Key::Down);
    }
    press(&mut app, Key::Enter);
    assert_eq!(app.state.calc_type, Some(CalcType::Tst));
    assert_eq!(advance(&mut app, no_replies()), ActiveScreen::TstMethod);
    press(&mut app, Key::Down);
    press(&mut app, Key::Enter);
    assert_eq!(app.state.tst_method, Some(TstMethod::CiNeb));

    let next = app.next_screen().unwrap();
    assert_eq!(next, ActiveScreen::SpinMode);
    let needs = app.transition_needs(next);
    assert_eq!(needs.preset.as_deref(), Some("ci_neb"));
    assert!(needs.image_dirs);
    assert!(needs.atoms_file.is_none());

    let replies = TransitionReplies {
        preset: Ok(Some(vec![
            ("IBRION".to_string(), IncarValue::Int(3)),
            ("LCLIMB".to_string(), IncarValue::Bool(true)),
            ("IBRION".to_string(), IncarValue::Int(1)),
        ])),
        image_dirs: vec!["00".into(), "01".into(), "02".into(), "03".into(), "logs".into()],
        atoms: Ok(None),
    };
    app.complete_advance(next, replies);
    let p = &app.state.incar_params;
    assert_eq!(p.len(), 3);
    assert_eq!(p.name_at(0), "IBRION");
    assert_eq!(*p.value_at(0), IncarValue::Int(1));
    assert_eq!(p.name_at(1), "IMAGES");
    assert_eq!(*p.value_at(1), IncarValue::Int(2));
    assert_eq!(p.name_at(2), "LCLIMB");
    assert_eq!(app.state.current_step, 3);

    // Restricted spin in a TST calculation skips file selection.
    press(&mut app, Key::Enter);
    assert_eq!(app.state.spin_mode, Some(SpinMode::Restricted));
    assert_eq!(app.next_screen(), Some(ActiveScreen::EditIncar));
}

#[test]
fn failed_preset_is_reported_on_the_incar_screen() {
    let mut app = new_app(&["POSCAR"]);
    press(&mut app, Key::Char('y'));
    advance(&mut app, no_replies());
    press(&mut app, Key::Down);
    press(&mut app, Key::Enter);
    advance(&mut app, no_replies());
    press(&mut app, Key::Enter);
    let replies = TransitionReplies {
        preset: Err(PythonError::BackendError("no such preset".into())),
        image_dirs: vec![],
        atoms: Ok(None),
    };
    assert_eq!(advance(&mut app, replies), ActiveScreen::SpinMode);
    assert_eq!(
        app.state.error.as_deref(),
        Some("Failed to load preset 'single_point': no such preset")
    );

    // Unrestricted: moments first, with the species of the first file.
    press(&mut app, Key::Down);
    press(&mut app, Key::Enter);
    let next = app.next_screen().unwrap();
    assert_eq!(next, ActiveScreen::Magmom);
    assert_eq!(app.transition_needs(next).atoms_file.as_deref(), Some("/work/POSCAR"));
    let replies = TransitionReplies {
        preset: Ok(None),
        image_dirs: vec![],
        atoms: Ok(Some(vec![
            SpeciesInfo { symbol: "Fe".into(), count: 2 },
            SpeciesInfo { symbol: "O".into(), count: 3 },
        ])),
    };
    app.complete_advance(next, replies);
    assert_eq!(app.magmom.as_ref().unwrap().buffers.len(), 2);

    let values = vec![Some("5".to_string()), Some("0.6".to_string())];
    press(&mut app, Key::Down);
    press(&mut app, Key::Down);
    assert_eq!(app.handle_input(Key::Enter, &values), ScreenAction::Advance);
    assert_eq!(app.state.magmom_per_species, vec!["5".to_string(), "0.6".to_string()]);
    assert_eq!(advance(&mut app, no_replies()), ActiveScreen::FilePick);
    press(&mut app, Key::Enter);
    press(&mut app, Key::Down);
    assert_eq!(press(&mut app, Key::Enter), ScreenAction::Advance);

    // The INCAR screen gets the message, ISPIN is set, the state forgets it.
    assert_eq!(advance(&mut app, no_replies()), ActiveScreen::EditIncar);
    assert_eq!(
        app.edit_incar.error.as_deref(),
        Some("Failed to load preset 'single_point': no such preset")
    );
    assert!(app.state.error.is_none());
    assert_eq!(app.edit_incar.params, vec![("ISPIN".to_string(), "2".to_string())]);
    assert_eq!(app.state.current_step, 5);
}

#[test]
fn back_after_advance_returns() {
    let mut app = new_app(&["POSCAR"]);
    press(&mut app, Key::Char('y'));
    advance(&mut app, no_replies());
    assert_eq!(app.current_screen, ActiveScreen::ChoosePath);
    assert!(app.go_back().is_none());
    assert_eq!(app.current_screen, ActiveScreen::Welcome);
    assert!(app.screen_history.is_empty());
    assert!(matches!(app.go_back(), Some(ExitReason::Cancelled)));
}

#[test]
fn back_from_tst_method_forgets_the_method() {
    let mut app = new_app(&["POSCAR"]);
    app.state.calc_type = Some(CalcType::Tst);
    app.state.tst_method = Some(TstMethod::Dimer);
    app.current_screen = ActiveScreen::TstMethod;
    app.screen_history = vec![ActiveScreen::Welcome, ActiveScreen::ChoosePath, ActiveScreen::CalcType];
    assert!(app.go_back().is_none());
    assert_eq!(app.current_screen, ActiveScreen::CalcType);
    assert_eq!(app.state.tst_method, None);
    assert_eq!(app.state.current_step, 1);
}

#[test]
fn quit_hands_over_results_only_on_result_screen() {
    let mut app = new_app(&["POSCAR"]);
    assert!(matches!(app.quit(), ExitReason::Cancelled));
    app.current_screen = ActiveScreen::Result;
    app.set_results(vec![failure_result("j", SubmitFailure::Panicked)]);
    match app.quit() {
        ExitReason::Submitted(r) => {
            assert_eq!(r.len(), 1);
            assert_eq!(r[0].message, "Internal error: submission thread panicked");
        }
        ExitReason::Cancelled => panic!("expected results"),
    }
    assert!(app.result.results.is_empty());
}

#[test]
fn job_plans_for_selected_files() {
    let mut app = new_app(&["a.vasp", "b.cif", "POSCAR"]);
    app.state.selected_files = vec![2, 0, 7];
    app.state.output_dir = "out".into();
    app.state.job_names = vec!["fe_01".into()];
    let jobs = app.file_jobs();
    assert_eq!(jobs.len(), 3);
    assert_eq!(jobs[0].job_name, "fe_01");
    assert_eq!(jobs[0].file_path, "/work/POSCAR");
    assert_eq!(jobs[0].output_dir, "out/fe_01");
    assert_eq!(jobs[1].job_name, "vaspsetup_02");
    assert_eq!(jobs[1].file_path, "/work/a.vasp");
    assert_eq!(jobs[2].job_name, "vaspsetup_03");
    assert_eq!(jobs[2].file_path, "");
    assert_eq!(jobs[2].output_dir, "out/vaspsetup_03");
}

#[test]
fn quick_job_defaults() {
    let mut app = new_app(&["POSCAR"]);
    let job = app.quick_job();
    assert_eq!(job.job_name, "vaspsetup_job");
    assert_eq!(job.output_dir, "/work");
    app.state.output_dir = "/scratch/x".into();
    app.state.job_names = vec!["myjob".into()];
    let job = app.quick_job();
    assert_eq!(job.job_name, "myjob");
    assert_eq!(job.output_dir, "/scratch/x");
}

#[test]
fn job_params_add_magmom() {
    let mut app = new_app(&["POSCAR"]);
    app.state.incar_params.insert("ENCUT".into(), IncarValue::Int(400));
    let p = app.job_params();
    assert_eq!(p.len(), 1);
    app.state.species = vec![SpeciesInfo { symbol: "Ni".into(), count: 4 }];
    app.state.magmom_per_species = vec!["2".into()];
    let p = app.job_params();
    assert_eq!(p.len(), 2);
    assert_eq!(p.name_at(1), "MAGMOM");
    assert_eq!(*p.value_at(1), IncarValue::Text("4*2".into()));
    assert_eq!(app.state.incar_params.len(), 1);
}

#[test]
fn job_script_renders_or_fails() {
    let mut app = new_app(&["POSCAR"]);
    let mut job = app.quick_job();
    let script = app.job_script(&job).unwrap();
    assert!(script.contains("cd /work\n"));
    assert!(script.contains("#$ -N vaspsetup_job\n"));
    assert!(script.contains("mpirun -np $NSLOTS vasp_std\n"));
    app.state.queue = "lo\nng".into();
    job.job_name = "x".into();
    let err = app.job_script(&job).unwrap_err();
    assert_eq!(err.job_name, "x");
    assert!(!err.success);
    assert_eq!(err.message, "Script rendering failed: queue contains newline characters");
}

#[test]
fn failure_and_outcome_results() {
    let r = failure_result(
        "j1",
        SubmitFailure::WriteInputs(PythonError::ProcessFailed("crash".into())),
    );
    assert_eq!(r.message, "Failed to write input files: Python backend failed: crash");
    let r = failure_result("j1", SubmitFailure::CreateDir("denied".into()));
    assert_eq!(r.message, "Failed to create output directory: denied");
    let r = failure_result("j1", SubmitFailure::WriteScript("disk full".into()));
    assert_eq!(r.message, "Failed to write script: disk full");
    let q = qsub_outcome(true, "Your job 77 (\"j1\") has been submitted", "");
    let r = job_outcome("j1", q);
    assert!(r.success);
    assert_eq!(r.job_id.as_deref(), Some("77"));
    assert_eq!(r.job_name, "j1");
}

#[test]
fn join_path_like_path_join() {
    assert_eq!(join_path("/work", "POSCAR"), "/work/POSCAR");
    assert_eq!(join_path("/work/", "POSCAR"), "/work/POSCAR");
    assert_eq!(join_path("", "POSCAR"), "POSCAR");
    assert_eq!(join_path("/work", "/abs/file"), "/abs/file");
}
