use vaspsetup::screens::{ActiveScreen, CheckboxList, Key, ListCursor, TextBuffer};

#[test]
fn test_list_cursor() {
    let mut cursor = ListCursor::new(3);
    assert_eq!(cursor.index, 0);
    cursor.down();
    assert_eq!(cursor.index, 1);
    cursor.down();
    assert_eq!(cursor.index, 2);
    cursor.down(); // should not go past end
    assert_eq!(cursor.index, 2);
    cursor.up();
    assert_eq!(cursor.index, 1);
}

#[test]
fn test_text_buffer() {
    let mut buf = TextBuffer::new();
    buf.handle_key(Key::Char('h'));
    buf.handle_key(Key::Char('i'));
    assert_eq!(buf.content, "hi");
    buf.handle_key(Key::Backspace);
    assert_eq!(buf.content, "h");
}

#[test]
fn test_checkbox_list() {
    let mut cb = CheckboxList::new(3);
    assert!(!cb.any_selected());
    cb.toggle();
    assert!(cb.any_selected());
    assert_eq!(cb.selected_indices(), vec![0]);
    cb.select_all();
    assert_eq!(cb.selected_indices(), vec![0, 1, 2]);
    cb.select_all(); // toggle all off
    assert!(!cb.any_selected());
}

#[test]
fn test_text_buffer_with_content() {
    let buf = TextBuffer::with_content("hello");
    assert_eq!(buf.content, "hello");
    assert_eq!(buf.cursor_pos, 5);
}

#[test]
fn text_buffer_cursor_counts_bytes_of_multibyte_chars() {
    let mut buf = TextBuffer::with_content("é");
    assert_eq!(buf.cursor_pos, 2);
    assert_eq!(buf.cursor_index(), 1);
    buf.handle_key(Key::Left);
    assert_eq!(buf.cursor_pos, 0);
    buf.handle_key(Key::Char('→'));
    assert_eq!(buf.content, "→é");
    assert_eq!(buf.cursor_pos, 3);
    buf.handle_key(Key::Right);
    assert_eq!(buf.cursor_pos, 5);
    buf.handle_key(Key::Right);
    assert_eq!(buf.cursor_pos, 5);
}

#[test]
fn text_buffer_insert_in_middle_then_backspace_restores() {
    let mut buf = TextBuffer::with_content("ac");
    buf.handle_key(Key::Left);
    buf.handle_key(Key::Char('b'));
    assert_eq!(buf.content, "abc");
    assert_eq!(buf.cursor_index(), 2);
    buf.handle_key(Key::Backspace);
    assert_eq!(buf.content, "ac");
    assert_eq!(buf.cursor_index(), 1);
    assert_eq!(buf.cursor_pos, 1);
}

#[test]
fn text_buffer_backspace_at_start_and_other_keys() {
    let mut buf = TextBuffer::new();
    buf.handle_key(Key::Backspace);
    buf.handle_key(Key::Left);
    buf.handle_key(Key::Tab);
    assert_eq!(buf.content, "");
    assert_eq!(buf.cursor_pos, 0);
    assert!(buf.is_empty());
    let blank = TextBuffer::with_content(" \t ");
    assert!(blank.is_empty());
    assert!(!TextBuffer::with_content(" x ").is_empty());
}

#[test]
fn checkbox_toggle_twice_restores() {
    let mut cb = CheckboxList::new(2);
    cb.down();
    cb.toggle();
    assert_eq!(cb.selected_indices(), vec![1]);
    cb.toggle();
    assert!(!cb.any_selected());
    cb.down();
    assert_eq!(cb.cursor, 1);
}

#[test]
fn list_cursor_empty_list() {
    let mut c = ListCursor::new(0);
    c.down();
    assert_eq!(c.index, 0);
    c.up();
    assert_eq!(c.index, 0);
}

#[test]
fn screen_labels() {
    assert_eq!(ActiveScreen::EditIncar.label(), "INCAR Parameters");
    assert_eq!(ActiveScreen::Result.label(), "Complete");
    assert_eq!(ActiveScreen::FilePick.label(), "Select Files");
}
