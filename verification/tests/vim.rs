use agman_tui::textarea::{CursorMove, Input, Key};
use agman_tui::vim::{VimMode, VimTextArea};

fn key_input(c: char) -> Input {
    Input {
        key: Key::Char(c),
        ctrl: false,
        alt: false,
        shift: false,
    }
}

fn ctrl_input(c: char) -> Input {
    Input {
        key: Key::Char(c),
        ctrl: true,
        alt: false,
        shift: false,
    }
}

fn esc_input() -> Input {
    Input {
        key: Key::Esc,
        ctrl: false,
        alt: false,
        shift: false,
    }
}

fn editor_of(lines: &[&str]) -> VimTextArea<'static> {
    VimTextArea::from_lines(lines.iter().map(|line| line.to_string()).collect())
}

fn type_keys(editor: &mut VimTextArea<'static>, keys: &str) {
    for c in keys.chars() {
        editor.input(key_input(c));
    }
}

#[test]
fn read_only_blocks_editing_keys() {
    let mut editor = editor_of(&["hello world", "second line"]);
    editor.set_read_only(true);
    editor.set_normal_mode();

    let original = editor.lines_joined();

    for c in ['i', 'a', 'A', 'o', 'O', 'I', 'x', 'D', 'C', 'p', 'u'] {
        editor.input(key_input(c));
    }
    editor.input(ctrl_input('r'));
    editor.input(key_input('d'));
    editor.input(key_input('c'));

    assert_eq!(editor.lines_joined(), original);
    assert_eq!(editor.mode(), VimMode::Normal);
}

#[test]
fn read_only_allows_navigation() {
    let mut editor = editor_of(&["line one", "line two", "line three"]);
    editor.set_read_only(true);
    editor.set_normal_mode();
    editor.move_cursor(CursorMove::Top);
    assert_eq!(editor.cursor(), (0, 0));

    editor.input(key_input('j'));
    assert_eq!(editor.cursor().0, 1);

    editor.input(key_input('k'));
    assert_eq!(editor.cursor().0, 0);

    editor.input(key_input('G'));
    assert_eq!(editor.cursor().0, 2);

    editor.input(key_input('g'));
    editor.input(key_input('g'));
    assert_eq!(editor.cursor().0, 0);
}

#[test]
fn read_only_visual_yank() {
    let mut editor = editor_of(&["hello world"]);
    editor.set_read_only(true);
    editor.set_normal_mode();
    editor.move_cursor(CursorMove::Top);

    let original = editor.lines_joined();

    editor.input(key_input('v'));
    assert_eq!(editor.mode(), VimMode::Visual);

    editor.input(key_input('l'));
    editor.input(key_input('l'));
    editor.input(key_input('l'));

    editor.input(key_input('y'));
    assert_eq!(editor.mode(), VimMode::Normal);

    assert_eq!(editor.lines_joined(), original);

    let yank = editor.textarea.widget.yank_text();
    assert!(!yank.is_empty());
}

#[test]
fn read_only_blocks_visual_cut() {
    let mut editor = editor_of(&["hello world"]);
    editor.set_read_only(true);
    editor.set_normal_mode();

    let original = editor.lines_joined();

    editor.input(key_input('v'));
    editor.input(key_input('l'));
    editor.input(key_input('d'));

    assert_eq!(editor.lines_joined(), original);

    editor.input(esc_input());

    editor.input(key_input('v'));
    editor.input(key_input('l'));
    editor.input(key_input('c'));

    assert_eq!(editor.lines_joined(), original);
}

#[test]
fn yank_hands_the_text_to_the_clipboard() {
    let mut editor = editor_of(&["hello world"]);
    editor.move_cursor(CursorMove::Top);
    assert_eq!(editor.input(key_input('v')), None);
    editor.input(key_input('e'));
    let copied = editor.input(key_input('y'));
    assert_eq!(copied, Some("hello".to_string()));
    assert_eq!(editor.lines_joined(), "hello world");
}

#[test]
fn insert_mode_types_and_escape_leaves_it() {
    let mut editor = VimTextArea::new();
    assert_eq!(editor.mode(), VimMode::Normal);
    editor.input(key_input('i'));
    assert_eq!(editor.mode(), VimMode::Insert);
    assert_eq!(editor.mode().indicator(), "INSERT");
    type_keys(&mut editor, "one");
    editor.input(Input {
        key: Key::Enter,
        ctrl: false,
        alt: false,
        shift: false,
    });
    type_keys(&mut editor, "two");
    assert_eq!(editor.lines(), &["one".to_string(), "two".to_string()]);
    editor.input(esc_input());
    assert_eq!(editor.mode(), VimMode::Normal);
    assert_eq!(editor.mode().indicator(), "NORMAL");
}

#[test]
fn undo_and_redo_lead_back_and_forth() {
    let mut editor = editor_of(&["abc"]);
    editor.move_cursor(CursorMove::Top);
    editor.input(key_input('x'));
    assert_eq!(editor.lines_joined(), "bc");
    editor.input(key_input('u'));
    assert_eq!(editor.lines_joined(), "abc");
    editor.input(ctrl_input('r'));
    assert_eq!(editor.lines_joined(), "bc");
}

#[test]
fn undo_gives_the_cursor_back() {
    let mut editor = editor_of(&["one two", "three"]);
    editor.move_cursor(CursorMove::Top);
    editor.move_cursor(CursorMove::End);
    editor.input(key_input('x'));
    assert_eq!(editor.lines_joined(), "one twothree");
    assert_eq!(editor.cursor(), (0, 7));
    editor.input(key_input('u'));
    assert_eq!(editor.lines_joined(), "one two\nthree");
    assert_eq!(editor.cursor(), (1, 0));
    editor.input(ctrl_input('r'));
    assert_eq!(editor.cursor(), (0, 7));
}

#[test]
fn typing_moves_and_deletes_by_words() {
    let mut editor = editor_of(&["one two  three"]);
    editor.move_cursor(CursorMove::End);
    editor.set_insert_mode();
    editor.input(ctrl_input('w'));
    assert_eq!(editor.lines_joined(), "one two  ");
    editor.input(ctrl_input('w'));
    assert_eq!(editor.lines_joined(), "one ");
    editor.input(ctrl_input('a'));
    assert_eq!(editor.cursor(), (0, 0));
    editor.input(Input {
        key: Key::Char('d'),
        ctrl: false,
        alt: true,
        shift: false,
    });
    assert_eq!(editor.lines_joined(), " ");
    editor.input(Input {
        key: Key::Tab,
        ctrl: false,
        alt: false,
        shift: false,
    });
    assert_eq!(editor.lines_joined(), "     ");
    editor.input(ctrl_input('e'));
    editor.input(ctrl_input('j'));
    assert_eq!(editor.lines_joined(), "");
}

#[test]
fn operators_wait_for_a_motion() {
    let mut editor = editor_of(&["one two", "three"]);
    editor.move_cursor(CursorMove::Top);
    editor.input(key_input('d'));
    assert_eq!(editor.mode(), VimMode::Operator('d'));
    editor.input(key_input('d'));
    assert_eq!(editor.mode(), VimMode::Normal);
    assert_eq!(editor.lines_joined(), "three");

    let mut editor = editor_of(&["one two"]);
    editor.move_cursor(CursorMove::Top);
    type_keys(&mut editor, "cw");
    assert_eq!(editor.mode(), VimMode::Insert);
    assert_eq!(editor.lines_joined(), "two");

    let mut editor = editor_of(&["one two"]);
    editor.move_cursor(CursorMove::Top);
    type_keys(&mut editor, "D");
    assert_eq!(editor.lines_joined(), "");
}

#[test]
fn paste_reads_the_clipboard_only_for_p_in_normal_mode() {
    let mut editor = editor_of(&["ab"]);
    editor.move_cursor(CursorMove::Top);
    assert!(editor.reads_clipboard(&key_input('p')));
    assert!(!editor.reads_clipboard(&key_input('x')));
    assert!(!editor.reads_clipboard(&ctrl_input('p')));
    editor.input_with_clipboard(key_input('p'), Some("XY".to_string()));
    assert_eq!(editor.lines_joined(), "XYab");
    editor.input(key_input('i'));
    assert!(!editor.reads_clipboard(&key_input('p')));
}

#[test]
fn content_is_replaced_and_read_back() {
    let mut editor = editor_of(&["old"]);
    editor.set_content("first\nsecond");
    assert_eq!(editor.lines_joined(), "first\nsecond");
    assert!(!editor.is_read_only());
    editor.set_read_only(true);
    assert!(editor.is_read_only());
    editor.set_insert_mode();
    editor.set_normal_mode();
    assert_eq!(editor.mode(), VimMode::Normal);
}
