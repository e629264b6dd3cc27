use vaspsetup::file_list::format_horizontal;

#[test]
fn test_empty_files() {
    let text = format_horizontal(&[], 70);
    let content = text.to_text();
    assert!(content.contains("no files found"));
}

#[test]
fn test_single_file() {
    let files = vec!["POSCAR".to_string()];
    let text = format_horizontal(&files, 70);
    let content = text.to_text();
    assert!(content.contains("POSCAR"));
}

#[test]
fn test_multiple_files_fit_one_line() {
    let files = vec!["POSCAR".to_string(), "CONTCAR".to_string()];
    let text = format_horizontal(&files, 70);
    assert_eq!(text.lines.len(), 1);
}

#[test]
fn test_wrapping() {
    let files: Vec<String> = (0..20).map(|i| format!("structure_{:02}.vasp", i)).collect();
    let text = format_horizontal(&files, 40);
    assert!(text.lines.len() > 1);
}

#[test]
fn test_long_filename_truncated() {
    let files = vec!["a".repeat(200)];
    let text = format_horizontal(&files, 40);
    let content = text.to_text();
    assert!(content.len() < 200);
}

#[test]
fn wrapping_exact_lines() {
    // Width 20: "  aaaaaa  bbbbbb" is 16 wide; "cccccc" would make it 24.
    let files = vec!["aaaaaa".to_string(), "bbbbbb".to_string(), "cccccc".to_string()];
    let list = format_horizontal(&files, 20);
    assert_eq!(list.lines, vec![vec!["aaaaaa".to_string(), "bbbbbb".to_string()], vec!["cccccc".to_string()]]);
    assert_eq!(list.to_text(), "  aaaaaa  bbbbbb\n  cccccc");
}

#[test]
fn truncation_exact() {
    let files = vec!["abcdefghij".to_string()];
    let list = format_horizontal(&files, 8);
    assert_eq!(list.lines, vec![vec!["abcde…".to_string()]]);
}
