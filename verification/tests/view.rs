use vaspsetup::config::Config;
use vaspsetup::screens::choose_path::ChoosePathScreen;
use vaspsetup::screens::confirm::ConfirmScreen;
use vaspsetup::screens::result::{JobResult, ResultScreen};
use vaspsetup::screens::spin_mode::SpinModeScreen;
use vaspsetup::screens::welcome::WelcomeScreen;
use vaspsetup::screens::Key;
use vaspsetup::state::AppState;
use vaspsetup::view::{file_lines, footer_lines, header_label, header_lines, Piece, Tone};

fn texts(line: &[Piece]) -> Vec<(String, Tone)> {
    line.iter().map(|p| (p.text.clone(), p.tone)).collect()
}

fn joined(line: &[Piece]) -> String {
    line.iter().map(|p| p.text.as_str()).collect()
}

fn state_with(files: &[&str]) -> AppState {
    AppState::new(
        "/work/proj".to_string(),
        files.iter().map(|s| s.to_string()).collect(),
        &Config::default(),
    )
}

#[test]
fn header_label_forms() {
    assert_eq!(header_label(2, 5, "Calc Type"), "Step 2/5 · Calc Type");
    assert_eq!(header_label(3, 4, ""), "Step 3/4");
    assert_eq!(header_label(0, 0, "Confirm"), "Confirm");
    assert_eq!(header_label(0, 0, ""), "");
}

#[test]
fn header_lines_without_label() {
    let lines = header_lines(10, 0, 0, "", "1.2.3");
    assert_eq!(lines.len(), 4);
    assert_eq!(texts(&lines[0]), vec![("─".repeat(10), Tone::Muted)]);
    assert_eq!(texts(&lines[1]), vec![("VASPsetup v1.2.3".to_string(), Tone::Header)]);
    assert_eq!(
        texts(&lines[2]),
        vec![("VASP calculation setup & submission".to_string(), Tone::Muted)]
    );
    assert_eq!(texts(&lines[3]), texts(&lines[0]));
}

#[test]
fn header_badge_leaves_room_for_its_bytes() {
    let lines = header_lines(20, 1, 3, "Spin", "0.1.0");
    // " Step 1/3 · Spin " is 17 characters and 18 bytes ('·' takes two).
    assert_eq!(
        texts(&lines[3]),
        vec![
            ("─".to_string(), Tone::Muted),
            (" Step 1/3 · Spin ".to_string(), Tone::Action),
            (" ".to_string(), Tone::Plain),
        ]
    );
    let narrow = header_lines(5, 0, 0, "Confirm", "0.1.0");
    assert_eq!(texts(&narrow[3])[0], (String::new(), Tone::Muted));
}

#[test]
fn footer_hints_are_three_spaces_apart() {
    let lines = footer_lines(4, &[("Y", "Yes"), ("N", "No")]);
    assert_eq!(lines.len(), 2);
    assert_eq!(texts(&lines[0]), vec![("────".to_string(), Tone::Muted)]);
    assert_eq!(
        texts(&lines[1]),
        vec![
            ("Y".to_string(), Tone::Highlight),
            (": ".to_string(), Tone::Muted),
            ("Yes".to_string(), Tone::Muted),
            ("   ".to_string(), Tone::Plain),
            ("N".to_string(), Tone::Highlight),
            (": ".to_string(), Tone::Muted),
            ("No".to_string(), Tone::Muted),
        ]
    );
    assert!(footer_lines(3, &[])[1].is_empty());
}

#[test]
fn choose_path_marks_the_cursor() {
    let mut screen = ChoosePathScreen::new();
    let mut state = state_with(&[]);
    screen.handle_input(Key::Down, &mut state);
    let lines = screen.render();
    assert_eq!(lines.len(), 12);
    assert_eq!(joined(&lines[1]), "   Action Required ");
    assert_eq!(texts(&lines[3]), vec![("  What would you like to do?".to_string(), Tone::Plain)]);
    assert_eq!(texts(&lines[6]), vec![("    Quick Job Submission".to_string(), Tone::Muted)]);
    assert_eq!(texts(&lines[9]), vec![("  > Perform Calculation".to_string(), Tone::Highlight)]);
}

#[test]
fn spin_mode_choices() {
    let lines = SpinModeScreen::new().render();
    assert_eq!(lines.len(), 8);
    assert_eq!(texts(&lines[6]), vec![("  > Spin Restricted".to_string(), Tone::Highlight)]);
    assert_eq!(texts(&lines[7]), vec![("    Spin Unrestricted".to_string(), Tone::Muted)]);
}

#[test]
fn file_lines_side_by_side_or_note() {
    let files = vec!["POSCAR".to_string(), "a.vasp".to_string()];
    let lines = file_lines(&files, 80);
    assert_eq!(lines.len(), 1);
    assert_eq!(
        texts(&lines[0]),
        vec![
            ("  ".to_string(), Tone::Plain),
            ("POSCAR".to_string(), Tone::Highlight),
            ("  ".to_string(), Tone::Plain),
            ("a.vasp".to_string(), Tone::Highlight),
        ]
    );
    let none = file_lines(&[], 80);
    assert_eq!(none.len(), 1);
    assert!(joined(&none[0]).contains("no files found"));
}

#[test]
fn welcome_shows_directory_and_files() {
    let files = vec!["POSCAR".to_string()];
    let lines = WelcomeScreen::new().render(&files, "./proj", 80);
    assert_eq!(
        texts(&lines[1]),
        vec![("  Directory:  ".to_string(), Tone::Plain), ("./proj".to_string(), Tone::Highlight)]
    );
    assert_eq!(joined(&lines[4]), "  Detected files in ./proj directory:");
    assert_eq!(joined(&lines[5]), "  POSCAR");
    assert_eq!(joined(lines.last().unwrap()), "  Confirm this is where your structure files live.");
}

fn result_lines(results: &Vec<JobResult>) -> Vec<Vec<Piece>> {
    let mut screen = ResultScreen::new();
    screen.results = results.clone();
    screen.render()
}

#[test]
fn result_headlines() {
    let ok = JobResult {
        job_name: "sp_01".to_string(),
        success: true,
        job_id: Some("42".to_string()),
        message: String::new(),
    };
    let bad = JobResult {
        job_name: "sp_02".to_string(),
        success: false,
        job_id: None,
        message: "qsub failed".to_string(),
    };
    let all = result_lines(&vec![ok.clone()]);
    assert_eq!(texts(&all[1]), vec![("  1 job(s) submitted successfully".to_string(), Tone::Success)]);
    assert_eq!(joined(&all[3]), "  + sp_01  (Job ID: 42)");
    let mixed = result_lines(&vec![ok, bad.clone()]);
    assert_eq!(texts(&mixed[1]), vec![("  1/2 job(s) submitted".to_string(), Tone::Highlight)]);
    assert_eq!(
        texts(&mixed[4]),
        vec![
            ("  x ".to_string(), Tone::Error),
            ("sp_02".to_string(), Tone::Highlight),
            ("  qsub failed".to_string(), Tone::Error),
        ]
    );
    let failed = result_lines(&vec![bad]);
    assert_eq!(texts(&failed[1]), vec![("  Submission failed".to_string(), Tone::Error)]);
    let empty = result_lines(&vec![]);
    assert_eq!(joined(&empty[1]), "  0/0 job(s) submitted");
    assert_eq!(joined(empty.last().unwrap()), "  Press Enter to exit.");
}

#[test]
fn confirm_summarises_submission() {
    let mut state = state_with(&["POSCAR"]);
    state.output_dir = "/work/proj/out".to_string();
    state.job_names = vec!["sp_a".to_string(), "sp_b".to_string()];
    state.queue = "long".to_string();
    state.cores = 16;
    let lines = ConfirmScreen::new().render(&state);
    let all: Vec<String> = lines.iter().map(|l| joined(l)).collect();
    assert!(all.contains(&"    Directory  /work/proj/out".to_string()));
    assert!(all.contains(&"    Jobs       2 jobs (sp_a...)".to_string()));
    assert!(all.contains(&"    Queue      long".to_string()));
    assert!(all.contains(&"    Cores      16".to_string()));
    assert_eq!(all.last().unwrap(), "  Submit to cluster?");
    state.job_names = vec![];
    let empty = ConfirmScreen::new().render(&state);
    let all: Vec<String> = empty.iter().map(|l| joined(l)).collect();
    assert!(all.contains(&"    Jobs       0 jobs (...)".to_string()));
}

#[test]
fn welcome_keys_and_header() {
    let app = vaspsetup::app::App::new(state_with(&["POSCAR"]), Config::default());
    assert_eq!(vaspsetup::view::keys_for(&app), vec![("Y", "Yes"), ("N", "No / Exit")]);
    let header = vaspsetup::view::screen_header(&app, 12, "0.1.0");
    assert_eq!(texts(&header[3]), vec![("─".repeat(12), Tone::Muted)]);
    let footer = vaspsetup::view::screen_footer(&app, 3);
    assert_eq!(joined(&footer[1]), "Y: Yes   N: No / Exit");
}
