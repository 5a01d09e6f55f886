use quicnode::ui::{
    format_log_line, level_enabled, ActionExecution, AppState, InputChangeReq, InputMode, InputType, Key, KeyOutcome,
    LogColor, LogLevel, SelectOption, Selected,
};

fn typed(app: &AppState) -> String {
    match &app.mode {
        InputMode::Input(_, chars, _) => chars.iter().collect(),
        _ => panic!("no text prompt"),
    }
}

fn prompt() -> AppState {
    let mut app = AppState::default();
    app.apply_request(InputChangeReq::Input("Password".to_string(), InputType::Password));
    app
}

#[test]
fn typing_and_editing() {
    let mut app = prompt();
    for c in "abd".chars() {
        assert!(matches!(app.handle_key(Key::Char(c)), KeyOutcome::Continue));
    }
    app.handle_key(Key::Left);
    app.handle_key(Key::Char('c'));
    assert_eq!(typed(&app), "abcd");
    assert_eq!(app.offset, 3);
    app.handle_key(Key::Backspace);
    assert_eq!(typed(&app), "abd");
    app.handle_key(Key::Right);
    app.handle_key(Key::Right);
    assert_eq!(app.offset, 3);
    match app.handle_key(Key::Enter) {
        KeyOutcome::Send(ActionExecution::Input(s)) => assert_eq!(s, "abd"),
        _ => panic!("expected the typed text"),
    }
    assert!(matches!(app.mode, InputMode::Idle));
    assert_eq!(app.offset, 0);
}

#[test]
fn cursor_stays_in_bounds() {
    let mut app = prompt();
    app.handle_key(Key::Left);
    app.handle_key(Key::Backspace);
    assert_eq!(app.offset, 0);
    assert_eq!(typed(&app), "");
}

#[test]
fn options_wrap_around() {
    let mut app = AppState::default();
    app.apply_request(InputChangeReq::Options(SelectOption {
        title: "Create?".to_string(),
        current: 0,
        options: vec!["yes".to_string(), "no".to_string()],
    }));
    app.handle_key(Key::Up);
    match &app.mode {
        InputMode::Options(o) => assert_eq!(o.current, 1),
        _ => panic!(),
    }
    app.handle_key(Key::Down);
    match &app.mode {
        InputMode::Options(o) => assert_eq!(o.current, 0),
        _ => panic!(),
    }
    app.handle_key(Key::Down);
    match app.handle_key(Key::Enter) {
        KeyOutcome::Send(ActionExecution::Select(s)) => assert_eq!(s, "no"),
        _ => panic!("expected a choice"),
    }
}

#[test]
fn focus_and_quit() {
    let mut app = prompt();
    app.handle_key(Key::Tab);
    assert_eq!(app.select, Selected::Logs);
    app.handle_key(Key::Char('x'));
    assert_eq!(typed(&app), "");
    app.handle_key(Key::Tab);
    assert_eq!(app.select, Selected::Input);
    assert!(matches!(app.handle_key(Key::Esc), KeyOutcome::Quit));
}

#[test]
fn paste_inserts_at_cursor() {
    let mut app = prompt();
    app.handle_key(Key::Char('a'));
    app.handle_key(Key::Char('d'));
    app.handle_key(Key::Left);
    app.paste("bc".chars().collect());
    assert_eq!(typed(&app), "abcd");
    assert_eq!(app.offset, 3);
}

#[test]
fn log_lines() {
    let line = format_log_line("12:00".to_string(), "WARN".to_string(), LogLevel::Warn, Some("a.rs".to_string()), "hi".to_string());
    let texts: Vec<&str> = line.iter().map(|s| s.text.as_str()).collect();
    assert_eq!(texts, vec!["[", "12:00 ", "WARN", " a.rs", "] ", "hi"]);
    assert_eq!(line[2].color, LogColor::Yellow);
    let none = format_log_line(String::new(), "INFO".to_string(), LogLevel::Info, None, String::new());
    assert_eq!(none[3].text, "");
    assert!(level_enabled(LogLevel::Info));
    assert!(!level_enabled(LogLevel::Debug));
    let mut app = AppState::default();
    app.push_log(line);
    assert_eq!(app.log_msgs.len(), 1);
}
