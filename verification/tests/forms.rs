use vaspsetup::config::Config;
use vaspsetup::screens::edit_kpoints::EditKpointsScreen;
use vaspsetup::screens::magmom::MagmomScreen;
use vaspsetup::screens::{Key, ScreenAction, TextBuffer};
use vaspsetup::state::{AppState, SpeciesInfo};

fn state() -> AppState {
    let cfg = Config::default();
    let mut s = AppState::new("/w".to_string(), vec!["POSCAR".into()], &cfg);
    s.species = vec![
        SpeciesInfo { symbol: "Fe".into(), count: 2 },
        SpeciesInfo { symbol: "O".into(), count: 3 },
    ];
    s
}

#[test]
fn kpoints_start_from_state_and_confirm() {
    let mut s = state();
    s.kpoints = [4, 4, 2];
    let mut screen = EditKpointsScreen::new(&s);
    let shown: Vec<&str> = screen.buffers.iter().map(|b| b.content.as_str()).collect();
    assert_eq!(shown, vec!["4", "4", "2"]);

    // Edit K3: Enter, Backspace, type 6, Esc.
    screen.handle_input(Key::Down, &mut s);
    screen.handle_input(Key::Down, &mut s);
    screen.handle_input(Key::Enter, &mut s);
    assert!(screen.editing);
    screen.handle_input(Key::Backspace, &mut s);
    screen.handle_input(Key::Char('6'), &mut s);
    screen.handle_input(Key::Esc, &mut s);
    assert!(!screen.editing);
    screen.handle_input(Key::Tab, &mut s);
    assert_eq!(screen.focus, 3);
    assert_eq!(screen.handle_input(Key::Enter, &mut s), ScreenAction::Advance);
    assert_eq!(s.kpoints, [4, 4, 6]);
}

#[test]
fn kpoints_refuse_zero_and_text() {
    let mut s = state();
    let mut screen = EditKpointsScreen::new(&s);
    screen.buffers[1] = TextBuffer::with_content(" 0 ");
    screen.buffers[2] = TextBuffer::with_content("x");
    for _ in 0..3 {
        screen.handle_input(Key::Down, &mut s);
    }
    assert_eq!(screen.handle_input(Key::Enter, &mut s), ScreenAction::Continue);
    assert_eq!(screen.focus, 1);
    assert_eq!(screen.error.as_deref(), Some("K2 must be a positive number"));
    assert_eq!(s.kpoints, [1, 1, 1]);
}

#[test]
fn magmom_defaults_and_confirm() {
    let mut s = state();
    let mut screen = MagmomScreen::new(2);
    assert!(screen.buffers.iter().all(|b| b.content == "0.0"));
    screen.handle_input(Key::Down, &mut s, &vec![]);
    screen.handle_input(Key::Down, &mut s, &vec![]);
    assert_eq!(screen.focus, 2);
    let values = vec![Some("5".to_string()), Some("0.6".to_string())];
    assert_eq!(screen.handle_input(Key::Enter, &mut s, &values), ScreenAction::Advance);
    assert_eq!(s.magmom_per_species, vec!["5".to_string(), "0.6".to_string()]);
    assert_eq!(s.magmom_string(), Some("2*5 3*0.6".to_string()));
}

#[test]
fn magmom_invalid_value_focuses_field() {
    let mut s = state();
    let mut screen = MagmomScreen::new(2);
    screen.buffers[1] = TextBuffer::with_content("abc");
    screen.handle_input(Key::Down, &mut s, &vec![]);
    screen.handle_input(Key::Down, &mut s, &vec![]);
    let values = vec![Some("0".to_string()), None];
    assert_eq!(screen.handle_input(Key::Enter, &mut s, &values), ScreenAction::Continue);
    assert_eq!(screen.focus, 1);
    assert_eq!(screen.error.as_deref(), Some("Invalid value for O: 'abc'"));
    assert!(s.magmom_per_species.is_empty());
}

#[test]
fn magmom_without_species_is_refused() {
    let mut s = state();
    s.species.clear();
    let mut screen = MagmomScreen::new(0);
    assert_eq!(screen.handle_input(Key::Enter, &mut s, &vec![]), ScreenAction::Continue);
    assert_eq!(screen.error.as_deref(), Some("No species found — cannot set MAGMOM"));
}

#[test]
fn magmom_editing_types_into_field() {
    let mut s = state();
    let mut screen = MagmomScreen::new(2);
    screen.handle_input(Key::Enter, &mut s, &vec![]);
    assert!(screen.editing);
    screen.handle_input(Key::Char('1'), &mut s, &vec![]);
    assert_eq!(screen.buffers[0].content, "0.01");
    screen.handle_input(Key::Down, &mut s, &vec![]);
    assert!(!screen.editing);
    assert_eq!(screen.focus, 1);
    assert_eq!(screen.handle_input(Key::Esc, &mut s, &vec![]), ScreenAction::Back);
}

#[test]
fn cursor_parts_split_at_cursor() {
    let mut buf = TextBuffer::with_content("añb");
    let (before, at, after) = buf.cursor_parts();
    assert_eq!((before.as_str(), at, after.as_str()), ("añb", None, ""));
    buf.handle_key(Key::Left);
    buf.handle_key(Key::Left);
    let (before, at, after) = buf.cursor_parts();
    assert_eq!((before.as_str(), at, after.as_str()), ("a", Some('ñ'), "b"));
}
