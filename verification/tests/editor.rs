use json_editor::app::{App, CurrentScreen, CurrentlyEditing};
use json_editor::input::{dispatch, exiting_screen_handler, KeyPress};

fn type_chars(app: &mut App, text: &str) {
    for c in text.chars() {
        assert_eq!(dispatch(app, KeyPress::Char(c)), None);
    }
}

#[test]
fn new_starts_browsing_with_empty_state() {
    let app = App::new();
    assert_eq!(app.current_screen, CurrentScreen::Main);
    assert_eq!(app.key_input, "");
    assert_eq!(app.value_input, "");
    assert!(app.pairs.is_empty());
    assert!(app.keys_are_unique());
}

#[test]
fn commit_flow_stores_pair_and_returns_to_main() {
    let mut app = App::new();
    assert_eq!(dispatch(&mut app, KeyPress::Char('e')), None);
    assert_eq!(
        app.current_screen,
        CurrentScreen::Editing(CurrentlyEditing::Key)
    );
    type_chars(&mut app, "name");
    assert_eq!(app.key_input, "name");
    assert_eq!(dispatch(&mut app, KeyPress::Enter), None);
    assert_eq!(
        app.current_screen,
        CurrentScreen::Editing(CurrentlyEditing::Value)
    );
    type_chars(&mut app, "Ann");
    assert_eq!(dispatch(&mut app, KeyPress::Enter), None);
    assert_eq!(app.current_screen, CurrentScreen::Main);
    assert_eq!(app.pairs, vec![("name".to_string(), "Ann".to_string())]);
    assert_eq!(app.key_input, "");
    assert_eq!(app.value_input, "");
}

#[test]
fn esc_cancels_without_committing() {
    let mut app = App::new();
    dispatch(&mut app, KeyPress::Char('e'));
    type_chars(&mut app, "a");
    assert_eq!(dispatch(&mut app, KeyPress::Esc), None);
    assert_eq!(app.current_screen, CurrentScreen::Main);
    assert!(app.pairs.is_empty());
    assert_eq!(app.value_input, "");
}

#[test]
fn confirm_yes_ends_with_emit_decision() {
    let mut app = App::new();
    dispatch(&mut app, KeyPress::Char('e'));
    type_chars(&mut app, "name");
    dispatch(&mut app, KeyPress::Enter);
    type_chars(&mut app, "Ann");
    dispatch(&mut app, KeyPress::Enter);
    assert_eq!(dispatch(&mut app, KeyPress::Char('q')), None);
    assert_eq!(app.current_screen, CurrentScreen::Exiting);
    assert_eq!(dispatch(&mut app, KeyPress::Char('y')), Some(true));
    assert_eq!(app.to_json(), "{\"name\":\"Ann\"}");
}

#[test]
fn confirm_no_ends_with_discard_decision() {
    let mut app = App::new();
    dispatch(&mut app, KeyPress::Char('q'));
    assert_eq!(app.current_screen, CurrentScreen::Exiting);
    assert_eq!(dispatch(&mut app, KeyPress::Char('n')), Some(false));
}

#[test]
fn tab_from_value_returns_to_key_and_keeps_buffers() {
    let mut app = App::new();
    dispatch(&mut app, KeyPress::Char('e'));
    type_chars(&mut app, "k");
    dispatch(&mut app, KeyPress::Enter);
    type_chars(&mut app, "v");
    assert_eq!(dispatch(&mut app, KeyPress::Tab), None);
    assert_eq!(
        app.current_screen,
        CurrentScreen::Editing(CurrentlyEditing::Key)
    );
    assert_eq!(app.key_input, "k");
    assert_eq!(app.value_input, "v");
}

#[test]
fn backspace_undoes_last_append() {
    let mut app = App::new();
    dispatch(&mut app, KeyPress::Char('e'));
    type_chars(&mut app, "ab");
    assert_eq!(dispatch(&mut app, KeyPress::Backspace), None);
    assert_eq!(app.key_input, "a");
    dispatch(&mut app, KeyPress::Backspace);
    assert_eq!(app.key_input, "");
}

#[test]
fn backspace_on_empty_buffer_is_no_op() {
    let mut app = App::new();
    dispatch(&mut app, KeyPress::Char('e'));
    dispatch(&mut app, KeyPress::Backspace);
    dispatch(&mut app, KeyPress::Backspace);
    assert_eq!(app.key_input, "");
    assert_eq!(
        app.current_screen,
        CurrentScreen::Editing(CurrentlyEditing::Key)
    );
}

#[test]
fn recommit_same_key_keeps_one_entry_with_later_value() {
    let mut app = App::new();
    dispatch(&mut app, KeyPress::Char('e'));
    type_chars(&mut app, "k");
    dispatch(&mut app, KeyPress::Enter);
    type_chars(&mut app, "v1");
    dispatch(&mut app, KeyPress::Enter);
    dispatch(&mut app, KeyPress::Char('e'));
    type_chars(&mut app, "k");
    dispatch(&mut app, KeyPress::Enter);
    type_chars(&mut app, "v2");
    dispatch(&mut app, KeyPress::Enter);
    assert_eq!(app.pairs, vec![("k".to_string(), "v2".to_string())]);
    assert_eq!(app.to_json(), "{\"k\":\"v2\"}");
}

#[test]
fn commit_clears_both_buffers() {
    let mut app = App::new();
    app.key_input = "some key".to_string();
    app.value_input = "some value".to_string();
    app.save_key_value();
    assert_eq!(app.key_input, "");
    assert_eq!(app.value_input, "");
    assert_eq!(
        app.pairs,
        vec![("some key".to_string(), "some value".to_string())]
    );
}

#[test]
fn toggle_twice_is_identity_and_no_op_outside_editing() {
    let mut app = App::new();
    app.set_screen(CurrentScreen::Editing(CurrentlyEditing::Key));
    app.toggle_editing();
    assert_eq!(
        app.current_screen,
        CurrentScreen::Editing(CurrentlyEditing::Value)
    );
    app.toggle_editing();
    assert_eq!(
        app.current_screen,
        CurrentScreen::Editing(CurrentlyEditing::Key)
    );
    app.set_screen(CurrentScreen::Main);
    app.toggle_editing();
    assert_eq!(app.current_screen, CurrentScreen::Main);
    app.set_screen(CurrentScreen::Exiting);
    app.toggle_editing();
    assert_eq!(app.current_screen, CurrentScreen::Exiting);
}

#[test]
fn empty_key_and_value_are_legal() {
    let mut app = App::new();
    dispatch(&mut app, KeyPress::Char('e'));
    dispatch(&mut app, KeyPress::Enter);
    dispatch(&mut app, KeyPress::Enter);
    assert_eq!(app.pairs, vec![(String::new(), String::new())]);
    assert_eq!(app.to_json(), "{\"\":\"\"}");
}

#[test]
fn unmapped_keys_are_ignored() {
    let mut app = App::new();
    assert_eq!(dispatch(&mut app, KeyPress::Char('z')), None);
    assert_eq!(dispatch(&mut app, KeyPress::Enter), None);
    assert_eq!(dispatch(&mut app, KeyPress::Other), None);
    assert_eq!(app.current_screen, CurrentScreen::Main);
    dispatch(&mut app, KeyPress::Char('q'));
    assert_eq!(dispatch(&mut app, KeyPress::Char('x')), None);
    assert_eq!(app.current_screen, CurrentScreen::Exiting);
}

#[test]
fn exiting_handler_reads_the_answer() {
    assert_eq!(exiting_screen_handler(KeyPress::Char('y')), Some(true));
    assert_eq!(exiting_screen_handler(KeyPress::Char('n')), Some(false));
    assert_eq!(exiting_screen_handler(KeyPress::Char('q')), Some(false));
    assert_eq!(exiting_screen_handler(KeyPress::Char('a')), None);
    assert_eq!(exiting_screen_handler(KeyPress::Enter), None);
}

#[test]
fn keys_are_unique_detects_duplicates() {
    let mut app = App::new();
    app.pairs.push(("a".to_string(), "1".to_string()));
    app.pairs.push(("b".to_string(), "2".to_string()));
    assert!(app.keys_are_unique());
    app.pairs.push(("a".to_string(), "3".to_string()));
    assert!(!app.keys_are_unique());
}
