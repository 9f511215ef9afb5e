use kubexp::app::Action;
use kubexp::app::App;
use kubexp::app::InputMode;
use kubexp::app::Key;
use kubexp::render::Rect;

fn type_text(app: &mut App, text: &str) {
    for c in text.chars() {
        let action = app.handle_input(Key::Char(c));
        assert_eq!(action, Action::Idle);
    }
}

fn area() -> Rect {
    Rect { x: 2, y: 5, width: 40, height: 3 }
}

#[test]
fn starts_in_editing_mode_with_empty_state() {
    let app = App::default();
    assert_eq!(app.mode(), InputMode::Editing);
    assert_eq!(app.input_text(), "");
    assert_eq!(app.output_text(), "");
}

#[test]
fn printable_characters_append_in_order() {
    let mut app = App::default();
    type_text(&mut app, "pod");
    assert_eq!(app.input_text(), "pod");
    assert_eq!(app.mode(), InputMode::Editing);
}

#[test]
fn backspace_on_empty_buffer_is_a_noop() {
    let mut app = App::default();
    let action = app.handle_input(Key::Backspace);
    assert_eq!(action, Action::Idle);
    assert_eq!(app.mode(), InputMode::Editing);
    assert_eq!(app.input_text(), "");
    assert_eq!(app.output_text(), "");
}

#[test]
fn backspace_removes_the_last_character() {
    let mut app = App::default();
    type_text(&mut app, "pods");
    let action = app.handle_input(Key::Backspace);
    assert_eq!(action, Action::Idle);
    assert_eq!(app.input_text(), "pod");
}

#[test]
fn backspace_removes_a_whole_multibyte_character() {
    let mut app = App::default();
    type_text(&mut app, "hé");
    app.handle_input(Key::Backspace);
    assert_eq!(app.input_text(), "h");
}

#[test]
fn i_in_normal_mode_enters_editing() {
    let mut app = App::default();
    app.handle_input(Key::Esc);
    assert_eq!(app.mode(), InputMode::Normal);
    let action = app.handle_input(Key::Char('i'));
    assert_eq!(action, Action::SuppressExitKey);
    assert_eq!(app.mode(), InputMode::Editing);
    assert_eq!(app.input_text(), "");
}

#[test]
fn q_in_normal_mode_demands_exit() {
    let mut app = App::default();
    app.handle_input(Key::Esc);
    let action = app.handle_input(Key::Char('q'));
    assert_eq!(action, Action::Exit);
    assert_eq!(app.mode(), InputMode::Normal);
    assert_eq!(app.input_text(), "");
}

#[test]
fn other_keys_in_normal_mode_are_ignored() {
    let mut app = App::default();
    app.handle_input(Key::Esc);
    for key in [Key::Char('x'), Key::Backspace, Key::Other] {
        let action = app.handle_input(key);
        assert_eq!(action, Action::Idle);
        assert_eq!(app.mode(), InputMode::Normal);
        assert_eq!(app.input_text(), "");
    }
}

#[test]
fn shortcut_letters_are_literal_input_while_editing() {
    let mut app = App::default();
    let action_i = app.handle_input(Key::Char('i'));
    assert_eq!(action_i, Action::Idle);
    let action_q = app.handle_input(Key::Char('q'));
    assert_eq!(action_q, Action::Idle);
    assert_eq!(app.mode(), InputMode::Editing);
    assert_eq!(app.input_text(), "iq");
}

#[test]
fn esc_leaves_editing_and_keeps_the_buffer() {
    let mut app = App::default();
    type_text(&mut app, "pod");
    let action = app.handle_input(Key::Esc);
    assert_eq!(action, Action::RestoreExitKey);
    assert_eq!(app.mode(), InputMode::Normal);
    assert_eq!(app.input_text(), "pod");
}

#[test]
fn other_keys_while_editing_are_ignored() {
    let mut app = App::default();
    type_text(&mut app, "pod");
    let action = app.handle_input(Key::Other);
    assert_eq!(action, Action::Idle);
    assert_eq!(app.mode(), InputMode::Editing);
    assert_eq!(app.input_text(), "pod");
}

#[test]
fn enter_demands_a_submission_and_keeps_the_buffer() {
    let mut app = App::default();
    type_text(&mut app, "pod");
    let action = app.handle_input(Key::Char('\n'));
    assert_eq!(action, Action::Submit);
    assert_eq!(app.mode(), InputMode::Editing);
    assert_eq!(app.input_text(), "pod");
}

#[test]
fn submission_output_replaces_the_last_output() {
    let mut app = App::default();
    type_text(&mut app, "pod");
    let action = app.handle_input(Key::Char('\n'));
    assert_eq!(action, Action::Submit);
    app.submit(Ok(b"kind: Pod".to_vec()));
    assert_eq!(app.output_text(), "kind: Pod");
    assert_eq!(app.mode(), InputMode::Editing);
    assert_eq!(app.input_text(), "pod");
}

#[test]
fn launch_failure_shows_error_text_and_keeps_running() {
    let mut app = App::default();
    type_text(&mut app, "pod");
    app.handle_input(Key::Char('\n'));
    let message = format!("failed to run the lookup for {}", "pod");
    app.submit(Err(message.clone()));
    assert!(!app.output_text().is_empty());
    assert_eq!(app.output_text(), &message);
    assert_eq!(app.mode(), InputMode::Editing);
    assert_eq!(app.input_text(), "pod");
}

#[test]
fn undecodable_output_shows_error_text() {
    let mut app = App::default();
    app.submit(Ok(vec![0xff, 0xfe, 0xfd]));
    assert!(!app.output_text().is_empty());
    assert_eq!(app.mode(), InputMode::Editing);
}

#[test]
fn prefetch_success_becomes_the_initial_output() {
    let mut app = App::default();
    app.initialize(Ok(b"pods\nservices\n".to_vec()));
    assert_eq!(app.output_text(), "pods\nservices\n");
    assert_eq!(app.mode(), InputMode::Editing);
    assert_eq!(app.input_text(), "");
}

#[test]
fn prefetch_failure_is_nonfatal_and_shows_error_text() {
    let mut app = App::default();
    app.initialize(Err("could not start the lookup tool".to_string()));
    assert_eq!(app.output_text(), "could not start the lookup tool");
    assert_eq!(app.mode(), InputMode::Editing);
}

#[test]
fn cursor_counts_characters_not_bytes() {
    let mut app = App::default();
    type_text(&mut app, "héllo");
    assert_eq!("héllo".len(), 6);
    assert_eq!("héllo".chars().count(), 5);
    let pane = app.draw_input(area());
    assert_eq!(pane.text, "héllo");
    assert_eq!(pane.cursor_x, 2 + 5 + 1);
    assert_eq!(pane.cursor_y, 5 + 1);
}

#[test]
fn cursor_sits_after_an_empty_buffer() {
    let app = App::default();
    let pane = app.draw_input(area());
    assert_eq!(pane.cursor_x, 2 + 0 + 1);
    assert_eq!(pane.cursor_y, 5 + 1);
}

#[test]
fn input_pane_reflects_the_mode() {
    let mut app = App::default();
    type_text(&mut app, "pod");
    let editing_pane = app.draw_input(area());
    assert!(editing_pane.highlighted);
    assert_eq!(editing_pane.title, "Input");
    app.handle_input(Key::Esc);
    let normal_pane = app.draw_input(area());
    assert!(!normal_pane.highlighted);
    assert_eq!(normal_pane.text, "pod");
}

#[test]
fn output_pane_shows_the_last_output_verbatim() {
    let mut app = App::default();
    app.submit(Ok(b"kind: Pod\nversion: v1\n".to_vec()));
    let pane = app.draw_result();
    assert_eq!(pane.text, "kind: Pod\nversion: v1\n");
    assert_eq!(pane.title, "kubexp");
}

#[test]
fn help_line_in_normal_mode_blinks_and_names_the_shortcuts() {
    let mut app = App::default();
    app.handle_input(Key::Esc);
    let line = app.draw_help_message();
    assert!(line.blink);
    let texts: Vec<&str> = line.spans.iter().map(|s| s.text.as_str()).collect();
    assert_eq!(texts, vec!["Press ", "q", " to exit, ", "i", " to start editing."]);
    let bolds: Vec<bool> = line.spans.iter().map(|s| s.bold).collect();
    assert_eq!(bolds, vec![false, true, false, true, false]);
}

#[test]
fn help_line_while_editing_is_plain_and_names_the_shortcuts() {
    let app = App::default();
    let line = app.draw_help_message();
    assert!(!line.blink);
    let texts: Vec<&str> = line.spans.iter().map(|s| s.text.as_str()).collect();
    assert_eq!(
        texts,
        vec!["Press ", "Esc", " to stop editing, ", "Enter", " to record the message"]
    );
    let bolds: Vec<bool> = line.spans.iter().map(|s| s.bold).collect();
    assert_eq!(bolds, vec![false, true, false, true, false]);
}

#[test]
fn rendering_twice_produces_identical_output() {
    let mut app = App::default();
    type_text(&mut app, "héllo");
    app.submit(Ok(b"kind: Pod".to_vec()));

    let line1 = app.draw_help_message();
    let line2 = app.draw_help_message();
    assert_eq!(line1.blink, line2.blink);
    assert_eq!(line1.spans.len(), line2.spans.len());
    for (a, b) in line1.spans.iter().zip(line2.spans.iter()) {
        assert_eq!(a.text, b.text);
        assert_eq!(a.bold, b.bold);
    }

    let pane1 = app.draw_input(area());
    let pane2 = app.draw_input(area());
    assert_eq!(pane1.text, pane2.text);
    assert_eq!(pane1.highlighted, pane2.highlighted);
    assert_eq!(pane1.title, pane2.title);
    assert_eq!(pane1.cursor_x, pane2.cursor_x);
    assert_eq!(pane1.cursor_y, pane2.cursor_y);

    let out1 = app.draw_result();
    let out2 = app.draw_result();
    assert_eq!(out1.text, out2.text);
    assert_eq!(out1.title, out2.title);
}
