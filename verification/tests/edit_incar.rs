use vaspsetup::config::Config;
use vaspsetup::incar::IncarValue;
use vaspsetup::screens::edit_incar::{EditIncarScreen, Mode, ParamGridLayout};
use vaspsetup::screens::{Key, ScreenAction, TextBuffer};
use vaspsetup::state::{AppState, CalcType};

fn test_state() -> AppState {
    let cfg = Config::default();
    let mut state = AppState::new("/tmp/test".to_string(), vec!["POSCAR".into()], &cfg);
    state.calc_type = Some(CalcType::SinglePoint);
    state.incar_params.insert("ENCUT".into(), IncarValue::Int(520));
    state.incar_params.insert("EDIFF".into(), IncarValue::Real(format!("{:e}", 1e-6)));
    state.incar_params.insert("NSW".into(), IncarValue::Int(0));
    state
}

fn large_state() -> AppState {
    let cfg = Config::default();
    let mut state = AppState::new("/tmp/test".to_string(), vec!["POSCAR".into()], &cfg);
    state.calc_type = Some(CalcType::SinglePoint);
    for i in 0..12 {
        state.incar_params.insert(format!("PARAM_{:02}", i), IncarValue::Int(i));
    }
    state
}

fn type_text(screen: &mut EditIncarScreen, state: &mut AppState, text: &str) {
    for c in text.chars() {
        screen.handle_input(Key::Char(c), state);
    }
}

#[test]
fn test_params_sorted() {
    let state = test_state();
    let screen = EditIncarScreen::new(&state);
    let keys: Vec<&str> = screen.params.iter().map(|(k, _)| k.as_str()).collect();
    assert_eq!(keys, vec!["EDIFF", "ENCUT", "NSW"]);
}

#[test]
fn test_vertical_mode_for_small() {
    let state = test_state();
    let screen = EditIncarScreen::new(&state);
    assert!(!screen.use_grid);
}

#[test]
fn test_grid_mode_for_large() {
    let state = large_state();
    let screen = EditIncarScreen::new(&state);
    assert!(screen.use_grid);
}

#[test]
fn test_enter_edits_param() {
    let mut state = test_state();
    let mut screen = EditIncarScreen::new(&state);

    assert_eq!(screen.focus, 0);
    screen.handle_input(Key::Enter, &mut state);
    assert_eq!(screen.mode, Mode::EditValue);
}

#[test]
fn test_edit_saves_on_esc() {
    let mut state = test_state();
    let mut screen = EditIncarScreen::new(&state);

    screen.handle_input(Key::Enter, &mut state);
    screen.input = TextBuffer::with_content("1e-5");
    screen.handle_input(Key::Esc, &mut state);

    assert_eq!(screen.mode, Mode::Navigate);
    assert_eq!(screen.params[0].1, "1e-5");
}

#[test]
fn test_edit_saves_on_enter() {
    let mut state = test_state();
    let mut screen = EditIncarScreen::new(&state);

    screen.handle_input(Key::Enter, &mut state);
    screen.input = TextBuffer::with_content("600");
    screen.handle_input(Key::Enter, &mut state);

    assert_eq!(screen.mode, Mode::Navigate);
    assert_eq!(screen.params[0].1, "600");
}

#[test]
fn test_delete_param() {
    let mut state = test_state();
    let mut screen = EditIncarScreen::new(&state);

    assert_eq!(screen.param_count(), 3);
    screen.handle_input(Key::Char('d'), &mut state);
    assert_eq!(screen.param_count(), 2);
    assert_eq!(screen.params[0].0, "ENCUT");
}

#[test]
fn test_delete_on_confirm_is_noop() {
    let mut state = test_state();
    let mut screen = EditIncarScreen::new(&state);

    for _ in 0..=screen.param_count() {
        screen.handle_input(Key::Down, &mut state);
    }
    let count_before = screen.param_count();
    screen.handle_input(Key::Char('d'), &mut state);
    assert_eq!(screen.param_count(), count_before);
}

#[test]
fn test_add_enters_key_mode() {
    let mut state = test_state();
    let mut screen = EditIncarScreen::new(&state);

    screen.handle_input(Key::Char('+'), &mut state);
    assert_eq!(screen.mode, Mode::AddKey);
}

#[test]
fn test_add_key_then_value() {
    let mut state = test_state();
    let mut screen = EditIncarScreen::new(&state);

    screen.handle_input(Key::Char('+'), &mut state);
    assert_eq!(screen.mode, Mode::AddKey);

    type_text(&mut screen, &mut state, "ISIF");
    screen.handle_input(Key::Enter, &mut state);
    assert_eq!(screen.mode, Mode::AddValue);
    assert_eq!(screen.add_key, "ISIF");

    screen.handle_input(Key::Char('3'), &mut state);
    screen.handle_input(Key::Enter, &mut state);

    assert_eq!(screen.mode, Mode::Navigate);
    assert!(screen.params.iter().any(|(k, v)| k == "ISIF" && v == "3"));
}

#[test]
fn test_add_duplicate_rejected() {
    let mut state = test_state();
    let mut screen = EditIncarScreen::new(&state);

    screen.handle_input(Key::Char('+'), &mut state);
    type_text(&mut screen, &mut state, "ENCUT");
    screen.handle_input(Key::Enter, &mut state);

    assert_eq!(screen.mode, Mode::AddKey);
    assert!(screen.error.is_some());
}

#[test]
fn test_add_esc_cancels_key() {
    let mut state = test_state();
    let mut screen = EditIncarScreen::new(&state);

    screen.handle_input(Key::Char('+'), &mut state);
    type_text(&mut screen, &mut state, "NEW");
    screen.handle_input(Key::Esc, &mut state);

    assert_eq!(screen.mode, Mode::Navigate);
    assert_eq!(screen.param_count(), 3);
}

#[test]
fn test_add_esc_cancels_value() {
    let mut state = test_state();
    let mut screen = EditIncarScreen::new(&state);

    screen.handle_input(Key::Char('+'), &mut state);
    type_text(&mut screen, &mut state, "ISIF");
    screen.handle_input(Key::Enter, &mut state);
    assert_eq!(screen.mode, Mode::AddValue);

    screen.handle_input(Key::Esc, &mut state);
    assert_eq!(screen.mode, Mode::Navigate);
    assert_eq!(screen.param_count(), 3);
}

#[test]
fn test_add_empty_key_cancels() {
    let mut state = test_state();
    let mut screen = EditIncarScreen::new(&state);

    screen.handle_input(Key::Char('+'), &mut state);
    screen.handle_input(Key::Enter, &mut state);

    assert_eq!(screen.mode, Mode::Navigate);
    assert_eq!(screen.param_count(), 3);
}

#[test]
fn test_confirm_writes_to_state() {
    let mut state = test_state();
    let mut screen = EditIncarScreen::new(&state);

    for _ in 0..=screen.param_count() {
        screen.handle_input(Key::Down, &mut state);
    }
    assert!(screen.on_confirm());

    let action = screen.handle_input(Key::Enter, &mut state);
    assert_eq!(action, ScreenAction::Advance);
    assert_eq!(state.incar_params.len(), 3);
}

#[test]
fn test_grid_navigation() {
    let mut state = large_state();
    let mut screen = EditIncarScreen::new(&state);

    assert!(screen.use_grid);
    screen.handle_input(Key::Right, &mut state);
    assert!(screen.grid_col > 0 || screen.focus > 0);
}

#[test]
fn add_key_is_upper_cased_and_inserted_in_order() {
    let mut state = test_state();
    let mut screen = EditIncarScreen::new(&state);

    screen.handle_input(Key::Char('+'), &mut state);
    type_text(&mut screen, &mut state, "  ismear ");
    screen.handle_input(Key::Enter, &mut state);
    assert_eq!(screen.add_key, "ISMEAR");
    type_text(&mut screen, &mut state, " 0 ");
    screen.handle_input(Key::Enter, &mut state);
    let keys: Vec<&str> = screen.params.iter().map(|(k, _)| k.as_str()).collect();
    assert_eq!(keys, vec!["EDIFF", "ENCUT", "ISMEAR", "NSW"]);
    assert_eq!(screen.focus, 2);
    assert_eq!(screen.params[2].1, "0");
}

#[test]
fn add_blank_value_is_refused() {
    let mut state = test_state();
    let mut screen = EditIncarScreen::new(&state);
    screen.handle_input(Key::Char('+'), &mut state);
    type_text(&mut screen, &mut state, "LWAVE");
    screen.handle_input(Key::Enter, &mut state);
    screen.handle_input(Key::Enter, &mut state);
    assert_eq!(screen.mode, Mode::AddValue);
    assert_eq!(screen.error.as_deref(), Some("Value cannot be empty"));
}

#[test]
fn duplicate_message_names_the_key() {
    let mut state = test_state();
    let mut screen = EditIncarScreen::new(&state);
    screen.handle_input(Key::Char('+'), &mut state);
    type_text(&mut screen, &mut state, "nsw");
    screen.handle_input(Key::Enter, &mut state);
    assert_eq!(screen.error.as_deref(), Some("NSW already exists — edit it instead"));
}

#[test]
fn blank_edit_keeps_old_value() {
    let mut state = test_state();
    let mut screen = EditIncarScreen::new(&state);
    screen.handle_input(Key::Down, &mut state);
    screen.handle_input(Key::Enter, &mut state);
    assert_eq!(screen.input.content, "520");
    screen.input = TextBuffer::with_content("   ");
    screen.handle_input(Key::Enter, &mut state);
    assert_eq!(screen.params[1].1, "520");
    assert_eq!(screen.mode, Mode::Navigate);
}

#[test]
fn confirm_reads_values_back() {
    let mut state = test_state();
    let mut screen = EditIncarScreen::new(&state);
    screen.handle_input(Key::Char('+'), &mut state);
    type_text(&mut screen, &mut state, "LWAVE");
    screen.handle_input(Key::Enter, &mut state);
    type_text(&mut screen, &mut state, ".false.");
    screen.handle_input(Key::Enter, &mut state);
    screen.handle_input(Key::Char('+'), &mut state);
    type_text(&mut screen, &mut state, "SYSTEM");
    screen.handle_input(Key::Enter, &mut state);
    type_text(&mut screen, &mut state, "iron oxide");
    screen.handle_input(Key::Enter, &mut state);
    for _ in 0..10 {
        screen.handle_input(Key::Down, &mut state);
    }
    assert_eq!(screen.handle_input(Key::Enter, &mut state), ScreenAction::Advance);
    assert_eq!(state.incar_params.len(), 5);
    let names: Vec<String> = (0..5).map(|i| state.incar_params.name_at(i).clone()).collect();
    assert_eq!(names, vec!["EDIFF", "ENCUT", "LWAVE", "NSW", "SYSTEM"]);
    assert_eq!(*state.incar_params.value_at(1), IncarValue::Int(520));
    assert_eq!(*state.incar_params.value_at(2), IncarValue::Bool(false));
    assert_eq!(*state.incar_params.value_at(4), IncarValue::Text("iron oxide".into()));
    assert_eq!(*state.incar_params.value_at(0), IncarValue::Real("1e-6".into()));
}

#[test]
fn confirm_without_params_shows_error() {
    let cfg = Config::default();
    let mut state = AppState::new("/tmp".to_string(), vec![], &cfg);
    let mut screen = EditIncarScreen::new(&state);
    assert!(screen.on_confirm());
    assert_eq!(screen.handle_input(Key::Enter, &mut state), ScreenAction::Continue);
    assert_eq!(screen.error.as_deref(), Some("No parameters to submit"));
}

#[test]
fn delete_last_param_moves_focus_back() {
    let mut state = test_state();
    let mut screen = EditIncarScreen::new(&state);
    screen.handle_input(Key::Down, &mut state);
    screen.handle_input(Key::Down, &mut state);
    assert_eq!(screen.focus, 2);
    screen.handle_input(Key::Char('D'), &mut state);
    assert_eq!(screen.param_count(), 2);
    assert_eq!(screen.focus, 1);
}

#[test]
fn grid_layout_for_params() {
    let state = large_state();
    let screen = EditIncarScreen::new(&state);
    let layout = screen.layout();
    // Widest entry "PARAM_10 = 10": 8 + 3 + 2 = 13; cell 4 + 13 + 2 = 19;
    // 78 / 19 = 4 columns, 12 params in 3 rows.
    assert_eq!(layout.col_width, 19);
    assert_eq!(layout.cols, 4);
    assert_eq!(layout.rows, 3);
    let again = ParamGridLayout::compute(&screen.params);
    assert_eq!(again.index(2, 3, 12), Some(11));
    assert_eq!(again.index(2, 3, 11), None);
}

#[test]
fn grid_down_reaches_confirm_and_up_returns() {
    let mut state = large_state();
    let mut screen = EditIncarScreen::new(&state);
    for _ in 0..3 {
        screen.handle_input(Key::Down, &mut state);
    }
    assert!(screen.on_confirm());
    screen.handle_input(Key::Up, &mut state);
    assert_eq!(screen.focus, 2);
    screen.handle_input(Key::Right, &mut state);
    assert_eq!(screen.focus, 5);
    assert_eq!(screen.grid_col, 1);
}
