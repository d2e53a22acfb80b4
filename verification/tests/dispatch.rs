use toip_tui::input::Action;
use toip_tui::input::App;
use toip_tui::input::InputMode;
use toip_tui::input::KeyInput;

#[test]
fn editor_starts_in_editing_mode_with_empty_line() {
    let app = App::new();
    assert_eq!(app.mode, InputMode::Editing);
    assert_eq!(app.text.content(), "");
    assert_eq!(app.text.cursor_position(), 0);
}

#[test]
fn editing_inserts_characters_at_the_cursor() {
    let mut app = App::new();
    assert_eq!(app.handle_key(KeyInput::Character('h'), true), Action::Nothing);
    assert_eq!(app.handle_key(KeyInput::Character('i'), true), Action::Nothing);
    assert_eq!(app.text.content(), "hi");
    assert_eq!(app.text.cursor_position(), 2);
}

#[test]
fn editing_backspace_and_arrows_edit_the_line() {
    let mut app = App::new();
    for c in "abcd".chars() {
        app.handle_key(KeyInput::Character(c), true);
    }
    app.handle_key(KeyInput::LeftArrow, true);
    assert_eq!(app.handle_key(KeyInput::Backspace, true), Action::Nothing);
    assert_eq!(app.text.content(), "abd");
    assert_eq!(app.text.cursor_position(), 2);
    app.handle_key(KeyInput::RightArrow, true);
    assert_eq!(app.text.cursor_position(), 3);
}

#[test]
fn enter_requests_submit_and_keeps_the_line() {
    let mut app = App::new();
    app.handle_key(KeyInput::Character('y'), true);
    app.handle_key(KeyInput::Character('o'), true);
    assert_eq!(app.handle_key(KeyInput::Enter, true), Action::Submit);
    // the composed text stays intact so a failed send loses nothing
    assert_eq!(app.text.content(), "yo");
    assert_eq!(app.mode, InputMode::Editing);
}

#[test]
fn escape_switches_to_normal_then_q_quits() {
    let mut app = App::new();
    app.handle_key(KeyInput::Character('x'), true);
    assert_eq!(app.handle_key(KeyInput::Escape, true), Action::Nothing);
    assert_eq!(app.mode, InputMode::Normal);
    assert_eq!(app.handle_key(KeyInput::Character('q'), true), Action::Quit);
}

#[test]
fn normal_mode_ignores_other_keys() {
    let mut app = App::new();
    app.handle_key(KeyInput::Character('x'), true);
    app.handle_key(KeyInput::Escape, true);
    assert_eq!(app.handle_key(KeyInput::Character('z'), true), Action::Nothing);
    assert_eq!(app.handle_key(KeyInput::Enter, true), Action::Nothing);
    assert_eq!(app.handle_key(KeyInput::Backspace, true), Action::Nothing);
    assert_eq!(app.mode, InputMode::Normal);
    assert_eq!(app.text.content(), "x");
}

#[test]
fn repeat_and_release_events_are_ignored_in_editing() {
    let mut app = App::new();
    assert_eq!(app.handle_key(KeyInput::Character('a'), false), Action::Nothing);
    assert_eq!(app.handle_key(KeyInput::Enter, false), Action::Nothing);
    assert_eq!(app.text.content(), "");
    assert_eq!(app.mode, InputMode::Editing);
}

#[test]
fn unknown_keys_do_nothing_in_editing() {
    let mut app = App::new();
    assert_eq!(app.handle_key(KeyInput::Other, true), Action::Nothing);
    assert_eq!(app.text.content(), "");
    assert_eq!(app.mode, InputMode::Editing);
}
