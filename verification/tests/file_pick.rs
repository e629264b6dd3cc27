use vaspsetup::config::Config;
use vaspsetup::screens::file_pick::{FilePickScreen, GridLayout};
use vaspsetup::screens::{Key, ScreenAction};
use vaspsetup::state::AppState;

fn test_state() -> AppState {
    let cfg = Config::default();
    AppState::new(
        "/tmp/test".to_string(),
        vec!["POSCAR_Fe2O3".into(), "POSCAR_simple".into()],
        &cfg,
    )
}

fn grid_state() -> AppState {
    let cfg = Config::default();
    let files: Vec<String> = (1..=8).map(|i| format!("POSCAR_{:02}", i)).collect();
    AppState::new("/tmp/test".to_string(), files, &cfg)
}

#[test]
fn test_enter_toggles_file() {
    let mut state = test_state();
    let mut screen = FilePickScreen::new(2, &state.files);

    assert_eq!(screen.focus, 0);
    let action = screen.handle_input(Key::Enter, &mut state);
    assert_eq!(action, ScreenAction::Continue);
    assert!(screen.checkboxes.checked[0]);
}

#[test]
fn test_enter_untoggles_file() {
    let mut state = test_state();
    let mut screen = FilePickScreen::new(2, &state.files);

    screen.handle_input(Key::Enter, &mut state);
    assert!(screen.checkboxes.checked[0]);
    screen.handle_input(Key::Enter, &mut state);
    assert!(!screen.checkboxes.checked[0]);
}

#[test]
fn test_enter_on_confirm_advances() {
    let mut state = test_state();
    let mut screen = FilePickScreen::new(2, &state.files);

    screen.handle_input(Key::Enter, &mut state); // toggle file 0
    screen.handle_input(Key::Down, &mut state);
    screen.handle_input(Key::Down, &mut state);
    assert!(screen.on_confirm());

    let action = screen.handle_input(Key::Enter, &mut state);
    assert_eq!(action, ScreenAction::Advance);
    assert_eq!(state.selected_files, vec![0]);
}

#[test]
fn test_enter_on_confirm_blocked_when_empty() {
    let mut state = test_state();
    let mut screen = FilePickScreen::new(2, &state.files);

    screen.handle_input(Key::Down, &mut state);
    screen.handle_input(Key::Down, &mut state);
    assert!(screen.on_confirm());

    let action = screen.handle_input(Key::Enter, &mut state);
    assert_eq!(action, ScreenAction::Continue);
    assert_eq!(screen.error.as_deref(), Some("Select at least one file"));
}

#[test]
fn test_down_from_last_file_reaches_confirm() {
    let mut state = test_state();
    let mut screen = FilePickScreen::new(2, &state.files);

    screen.handle_input(Key::Down, &mut state);
    screen.handle_input(Key::Down, &mut state);
    assert_eq!(screen.focus, 2);
    assert!(screen.on_confirm());
}

#[test]
fn test_up_from_confirm_reaches_last_file() {
    let mut state = test_state();
    let mut screen = FilePickScreen::new(2, &state.files);

    screen.handle_input(Key::Down, &mut state);
    screen.handle_input(Key::Down, &mut state);
    assert!(screen.on_confirm());

    screen.handle_input(Key::Up, &mut state);
    assert_eq!(screen.focus, 1);
    assert!(!screen.on_confirm());
}

#[test]
fn test_confirm_button_not_past_end() {
    let mut state = test_state();
    let mut screen = FilePickScreen::new(2, &state.files);

    screen.handle_input(Key::Down, &mut state);
    screen.handle_input(Key::Down, &mut state);
    screen.handle_input(Key::Down, &mut state); // clamp
    assert_eq!(screen.focus, 2);
}

#[test]
fn test_grid_mode_activates() {
    let state = grid_state();
    let screen = FilePickScreen::new(8, &state.files);
    assert!(screen.use_grid);

    let state = test_state();
    let screen = FilePickScreen::new(2, &state.files);
    assert!(!screen.use_grid);
}

#[test]
fn test_grid_layout_column_major() {
    let files: Vec<String> = (1..=8).map(|i| format!("POSCAR_{:02}", i)).collect();
    let layout = GridLayout::compute(&files);

    assert!(layout.cols >= 2);
    assert_eq!(layout.index(0, 0, 8), Some(0));
    assert_eq!(layout.index(1, 0, 8), Some(1));
    let second_col_start = layout.rows;
    assert_eq!(layout.index(0, 1, 8), Some(second_col_start));
}

#[test]
fn test_grid_down_moves_within_column() {
    let mut state = grid_state();
    let mut screen = FilePickScreen::new(8, &state.files);

    assert_eq!(screen.focus, 0);
    screen.handle_input(Key::Down, &mut state);
    assert_eq!(screen.focus, 1);
    assert_eq!(screen.grid_row, 1);
    assert_eq!(screen.grid_col, 0);
}

#[test]
fn test_grid_right_moves_to_next_column() {
    let mut state = grid_state();
    let mut screen = FilePickScreen::new(8, &state.files);
    let layout = GridLayout::compute(&state.files);

    screen.handle_input(Key::Right, &mut state);
    assert_eq!(screen.grid_row, 0);
    assert_eq!(screen.grid_col, 1);
    assert_eq!(screen.focus, layout.rows);
}

#[test]
fn test_grid_left_clamps_at_first_column() {
    let mut state = grid_state();
    let mut screen = FilePickScreen::new(8, &state.files);

    screen.handle_input(Key::Left, &mut state);
    assert_eq!(screen.grid_col, 0);
    assert_eq!(screen.focus, 0);
}

#[test]
fn test_grid_right_clamps_at_last_column() {
    let mut state = grid_state();
    let mut screen = FilePickScreen::new(8, &state.files);
    let layout = GridLayout::compute(&state.files);

    for _ in 0..layout.cols {
        screen.handle_input(Key::Right, &mut state);
    }
    let col_after = screen.grid_col;
    screen.handle_input(Key::Right, &mut state);
    assert_eq!(screen.grid_col, col_after);
}

#[test]
fn test_grid_down_from_last_row_reaches_confirm() {
    let mut state = grid_state();
    let mut screen = FilePickScreen::new(8, &state.files);
    let layout = GridLayout::compute(&state.files);

    for _ in 0..layout.rows {
        screen.handle_input(Key::Down, &mut state);
    }
    assert!(screen.on_confirm());
}

#[test]
fn test_grid_up_from_confirm_returns_to_grid() {
    let mut state = grid_state();
    let mut screen = FilePickScreen::new(8, &state.files);
    let layout = GridLayout::compute(&state.files);

    for _ in 0..=layout.rows {
        screen.handle_input(Key::Down, &mut state);
    }
    assert!(screen.on_confirm());

    screen.handle_input(Key::Up, &mut state);
    assert!(!screen.on_confirm());
    assert!(screen.focus < screen.file_count);
}

#[test]
fn test_grid_enter_toggles() {
    let mut state = grid_state();
    let mut screen = FilePickScreen::new(8, &state.files);

    screen.handle_input(Key::Right, &mut state);
    let idx = screen.focus;
    screen.handle_input(Key::Enter, &mut state);
    assert!(screen.checkboxes.checked[idx]);
}

#[test]
fn test_grid_position_roundtrip() {
    let files: Vec<String> = (1..=12).map(|i| format!("POSCAR_{:02}", i)).collect();
    let layout = GridLayout::compute(&files);

    for idx in 0..12 {
        let (row, col) = layout.position(idx);
        assert_eq!(layout.index(row, col, 12), Some(idx),
            "Roundtrip failed for index {}: got ({}, {})", idx, row, col);
    }
}

#[test]
fn grid_layout_exact_dimensions() {
    // Cell: 4 (prefix) + 4 (checkbox) + 9 (name) + 2 (gap) = 19 columns;
    // (80 - 2) / 19 = 4 columns; 8 files in 4 columns take 2 rows.
    let files: Vec<String> = (1..=8).map(|i| format!("POSCAR_{:02}", i)).collect();
    let layout = GridLayout::compute(&files);
    assert_eq!(layout.col_width, 19);
    assert_eq!(layout.cols, 4);
    assert_eq!(layout.rows, 2);
    assert_eq!(layout.index(1, 3, 8), Some(7));
    assert_eq!(layout.index(1, 3, 7), None);
}

#[test]
fn select_all_key_checks_every_file_then_clears() {
    let mut state = test_state();
    let mut screen = FilePickScreen::new(2, &state.files);
    screen.handle_input(Key::Char('a'), &mut state);
    assert!(screen.checkboxes.checked.iter().all(|&c| c));
    screen.handle_input(Key::Char('A'), &mut state);
    assert!(screen.checkboxes.checked.iter().all(|&c| !c));
    assert_eq!(screen.handle_input(Key::Esc, &mut state), ScreenAction::Back);
    assert_eq!(screen.handle_input(Key::Char('q'), &mut state), ScreenAction::Quit);
}
