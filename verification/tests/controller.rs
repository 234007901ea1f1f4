use term_cast::app::view::{draw_log, render, Screen};
use term_cast::app::{Controller, FileQuery, KeyOutcome, LogLevel, Mode, Model, LOG_CAPACITY};
use term_cast::keys::{KeyCode, KeyEvent, NONE};
use term_cast::text::InputSpan;

fn plain(text: &str) -> InputSpan {
    InputSpan { text: String::from(text), emphasized: false }
}

fn marked(text: &str) -> InputSpan {
    InputSpan { text: String::from(text), emphasized: true }
}

fn press(c: &mut Controller, code: KeyCode) -> KeyOutcome {
    c.handle_key_event(KeyEvent::new(code, NONE))
}

#[test]
fn input_mode_backspace() {
    let backspace = KeyEvent::new(KeyCode::Backspace, NONE);

    // Setup the model in input mode
    let (mut c, _) = Controller::new();
    c.model.mode = Mode::Input;

    // 0 Length string
    c.handle_key_event(backspace.clone());
    assert_eq!(c.model.input_string, String::default());

    c.model.input_string = String::from("foo bar");

    // Test at index 0
    c.handle_key_event(backspace.clone());
    assert_eq!(c.model.input_string, String::from("foo bar"));

    // Delete from the middle of the string
    c.model.input_cursor = 4;
    c.handle_key_event(backspace.clone());
    assert_eq!(c.model.input_string, String::from("foobar"));

    // Test at end of string
    c.model.input_cursor = c.model.input_string.len();
    c.handle_key_event(backspace);
    assert_eq!(c.model.input_string, String::from("fooba"));
}

#[test]
fn input_mode_delete() {
    let delete = KeyEvent::new(KeyCode::Delete, NONE);

    // Setup the model in input mode
    let (mut c, _) = Controller::new();
    c.model.mode = Mode::Input;

    // 0 Length string
    c.handle_key_event(delete.clone());
    assert_eq!(c.model.input_string, String::default());

    c.model.input_string = String::from("foo bar");

    // Test at index 0
    c.handle_key_event(delete.clone());
    assert_eq!(c.model.input_string, String::from("oo bar"));

    // Delete from the middle of the string
    c.model.input_cursor = 2;
    c.handle_key_event(delete.clone());
    assert_eq!(c.model.input_string, String::from("oobar"));

    // Test at end of string
    c.model.input_cursor = c.model.input_string.len();
    c.handle_key_event(delete);
    assert_eq!(c.model.input_string, String::from("oobar"));
}

#[test]
fn input_mode_esc() {
    // Setup the model in input mode
    let (mut c, _) = Controller::new();
    c.model.mode = Mode::Input;

    // Test that esc cancelled input mode
    c.handle_key_event(KeyEvent::new(KeyCode::Esc, NONE));
    assert_ne!(c.model.mode, Mode::Input);
}

#[test]
fn get_input_span() {
    let (mut c, _) = Controller::new();
    let model = &mut c.model;
    model.mode = Mode::Input;
    model.input_string = String::from("cursor");

    // Cursor = 0, highlighted c
    let mut spans = vec![marked("c"), plain("ursor")];
    assert_eq!(model.get_input_span(), spans);

    // Cursor = 3, highlighted s
    spans = vec![plain("cur"), marked("s"), plain("or")];
    model.input_cursor = 3;
    assert_eq!(model.get_input_span(), spans);

    // Cursor = 5, highlighted r
    spans = vec![plain("curso"), marked("r")];
    model.input_cursor = 5;
    assert_eq!(model.get_input_span(), spans);

    // Cursor = 6, highlighted _ after cursor
    spans = vec![plain("cursor"), marked("_")];
    model.input_cursor = 6;
    assert_eq!(model.get_input_span(), spans);
}

#[test]
fn input_span_outside_input_mode_is_the_plain_line() {
    let mut model = Model::default();
    model.input_string = String::from("cursor");
    model.input_cursor = 3;
    assert_eq!(model.get_input_span(), vec![plain("cursor")]);
    model.mode = Mode::Help;
    assert_eq!(model.get_input_span(), vec![plain("cursor")]);
}

#[test]
fn input_span_of_empty_line_is_the_cursor() {
    let mut model = Model::default();
    model.mode = Mode::Input;
    assert_eq!(model.get_input_span(), vec![marked("_")]);
}

#[test]
fn new_controller_starts_in_control_mode() {
    let (c, _rx) = Controller::new();
    assert_eq!(c.model.mode, Mode::Control);
    assert_eq!(c.model.input_cursor, 0);
    assert_eq!(c.model.input_string, String::new());
    assert!(c.model.log.is_empty());
    assert_eq!(c.model.selected_file, None);
}

#[test]
fn control_mode_keys_switch_modes() {
    let (mut c, _rx) = Controller::new();
    assert_eq!(press(&mut c, KeyCode::Char('?')), KeyOutcome::Handled);
    assert_eq!(c.model.mode, Mode::Help);
    assert_eq!(press(&mut c, KeyCode::Char('x')), KeyOutcome::Handled);
    assert_eq!(c.model.mode, Mode::Help);
    press(&mut c, KeyCode::Char('q'));
    assert_eq!(c.model.mode, Mode::Control);
    press(&mut c, KeyCode::Char('?'));
    press(&mut c, KeyCode::Enter);
    assert_eq!(c.model.mode, Mode::Control);
    press(&mut c, KeyCode::Char('?'));
    press(&mut c, KeyCode::Esc);
    assert_eq!(c.model.mode, Mode::Control);
    press(&mut c, KeyCode::Char('/'));
    assert_eq!(c.model.mode, Mode::Input);
    press(&mut c, KeyCode::Up);
    assert_eq!(c.model.mode, Mode::Input);
}

#[test]
fn control_mode_q_raises_the_shutdown_signal() {
    let (mut c, rx) = Controller::new();
    assert!(rx.try_recv().is_err());
    assert_eq!(press(&mut c, KeyCode::Char('q')), KeyOutcome::Shutdown);
    assert_eq!(rx.try_recv(), Ok(()));
    assert_eq!(c.model.mode, Mode::Control);
}

#[test]
fn control_mode_q_without_a_listener_changes_nothing() {
    let (mut c, rx) = Controller::new();
    drop(rx);
    assert_eq!(press(&mut c, KeyCode::Char('q')), KeyOutcome::Shutdown);
    assert_eq!(c.model.mode, Mode::Control);
}

#[test]
fn input_mode_types_and_moves() {
    let (mut c, _rx) = Controller::new();
    c.model.mode = Mode::Input;
    for ch in "abc".chars() {
        assert_eq!(press(&mut c, KeyCode::Char(ch)), KeyOutcome::Handled);
    }
    assert_eq!(c.model.input_string, "abc");
    assert_eq!(c.model.input_cursor, 3);
    press(&mut c, KeyCode::Right);
    assert_eq!(c.model.input_cursor, 3);
    press(&mut c, KeyCode::Left);
    assert_eq!(c.model.input_cursor, 2);
    press(&mut c, KeyCode::Char('x'));
    assert_eq!(c.model.input_string, "abxc");
    assert_eq!(c.model.input_cursor, 3);
    press(&mut c, KeyCode::Home);
    assert_eq!(c.model.input_cursor, 0);
    press(&mut c, KeyCode::Left);
    assert_eq!(c.model.input_cursor, 0);
    press(&mut c, KeyCode::Right);
    assert_eq!(c.model.input_cursor, 1);
    press(&mut c, KeyCode::End);
    assert_eq!(c.model.input_cursor, 4);
    press(&mut c, KeyCode::Backspace);
    assert_eq!(c.model.input_string, "abx");
    assert_eq!(c.model.input_cursor, 3);
    press(&mut c, KeyCode::Tab);
    assert_eq!(c.model.input_string, "abx");
    assert_eq!(c.model.input_cursor, 3);
}

#[test]
fn input_mode_enter_asks_for_the_file() {
    let (mut c, _rx) = Controller::new();
    c.model.mode = Mode::Input;
    c.model.input_string = String::from("./video.mp4");
    assert_eq!(
        press(&mut c, KeyCode::Enter),
        KeyOutcome::Queue(FileQuery::Plain { path: String::from("./video.mp4") })
    );
    assert_eq!(c.model.mode, Mode::Input);
    assert_eq!(c.model.input_string, "./video.mp4");
}

#[test]
fn file_query_expands_the_tilde() {
    let (mut c, _rx) = Controller::new();
    c.model.input_string = String::from("~/term-cast-test");
    assert_eq!(c.file_query(), FileQuery::Home { rest: String::from("term-cast-test") });
    c.model.input_string = String::from("~/ab");
    assert_eq!(c.file_query(), FileQuery::Home { rest: String::from("ab") });
    // three characters are too few to be expanded
    c.model.input_string = String::from("~/a");
    assert_eq!(c.file_query(), FileQuery::Plain { path: String::from("~/a") });
    c.model.input_string = String::from("term-cast-test");
    assert_eq!(c.file_query(), FileQuery::Plain { path: String::from("term-cast-test") });
    c.model.input_string = String::from("../term-cast-test");
    assert_eq!(c.file_query(), FileQuery::Plain { path: String::from("../term-cast-test") });
    c.model.input_string = String::new();
    assert_eq!(c.file_query(), FileQuery::Plain { path: String::new() });
}

#[test]
fn queue_file_selects_a_file_that_was_found() {
    let (mut c, _rx) = Controller::new();
    c.model.input_string = String::from("~/term-cast-test");
    let chosen = c.queue_file(Some(String::from("/home/user/term-cast-test")));
    assert_eq!(chosen, Some(String::from("/home/user/term-cast-test")));
    assert_eq!(c.model.selected_file, Some(String::from("/home/user/term-cast-test")));
    assert_eq!(c.model.log.len(), 1);
    assert_eq!(
        c.model.log[0],
        (LogLevel::General, String::from("\"/home/user/term-cast-test\" selected as active file."))
    );
}

#[test]
fn queue_file_drops_the_selection_when_nothing_was_found() {
    let (mut c, _rx) = Controller::new();
    c.model.input_string = String::from("nowhere");
    c.model.selected_file = Some(String::from("/old"));
    assert_eq!(c.queue_file(None), None);
    assert_eq!(c.model.selected_file, None);
    assert_eq!(
        c.model.log[0],
        (LogLevel::Error, String::from("\"nowhere\" is not a valid file."))
    );
}

#[test]
fn log_puts_the_newest_entry_first() {
    let (mut c, _rx) = Controller::new();
    c.log(LogLevel::General, String::from("first"));
    c.log(LogLevel::Debug, String::from("second"));
    assert_eq!(c.model.log.len(), 2);
    assert_eq!(c.model.log[0], (LogLevel::Debug, String::from("second")));
    assert_eq!(c.model.log[1], (LogLevel::General, String::from("first")));
}

#[test]
fn log_drops_the_oldest_entry_when_full() {
    let (mut c, _rx) = Controller::new();
    for i in 0..LOG_CAPACITY {
        c.log(LogLevel::General, format!("entry {}", i));
    }
    assert_eq!(c.model.log.len(), LOG_CAPACITY);
    assert_eq!(c.model.log[LOG_CAPACITY - 1].1, "entry 0");
    c.log(LogLevel::Error, String::from("one more"));
    assert_eq!(c.model.log.len(), LOG_CAPACITY);
    assert_eq!(c.model.log[0], (LogLevel::Error, String::from("one more")));
    assert_eq!(c.model.log[1].1, format!("entry {}", LOG_CAPACITY - 1));
    assert_eq!(c.model.log[LOG_CAPACITY - 1].1, "entry 1");
}

#[test]
fn render_shows_help_in_help_mode_only() {
    let (mut c, _rx) = Controller::new();
    c.log(LogLevel::Error, String::from("a"));
    c.log(LogLevel::General, String::from("b"));
    c.model.input_string = String::from("xy");
    assert_eq!(
        render(&c.model),
        Screen::Control {
            log: vec![String::from("b"), String::from("a")],
            input: vec![plain("xy")],
        }
    );
    c.model.mode = Mode::Input;
    assert_eq!(
        render(&c.model),
        Screen::Control {
            log: vec![String::from("b"), String::from("a")],
            input: vec![marked("x"), plain("y")],
        }
    );
    c.model.mode = Mode::Help;
    assert_eq!(render(&c.model), Screen::Help);
}

#[test]
fn log_pane_shows_the_newest_sixty_four_entries() {
    let (mut c, _rx) = Controller::new();
    for i in 0..70 {
        c.log(LogLevel::Debug, format!("entry {}", i));
    }
    let lines = draw_log(&c.model);
    assert_eq!(lines.len(), 64);
    assert_eq!(lines[0], "entry 69");
    assert_eq!(lines[63], "entry 6");
}

#[test]
fn a_line_that_is_not_ascii_is_not_well_formed() {
    let (mut c, _rx) = Controller::new();
    assert!(c.is_wf());
    assert_eq!(c.model().mode, Mode::Control);
    c.model.input_string = String::from("abc");
    c.model.input_cursor = 3;
    assert!(c.is_wf());
    c.model.input_cursor = 4;
    assert!(!c.is_wf());
    c.model.input_string = String::from("caf\u{e9}");
    c.model.input_cursor = 0;
    assert!(!c.is_wf());
}

#[test]
fn a_character_that_is_not_ascii_is_put_in_as_it_is() {
    let (mut c, _rx) = Controller::new();
    c.model.mode = Mode::Input;
    c.model.input_string = String::from("ab");
    c.model.input_cursor = 1;
    press(&mut c, KeyCode::Char('\u{e9}'));
    assert_eq!(c.model.input_string, "a\u{e9}b");
    assert_eq!(c.model.input_cursor, 2);
    assert!(!c.is_wf());
}

/// Stands for the file system: the test file exists below the home directory `/home/user`,
/// in the working directory `/work/dir` and in `/work`.
fn resolve(query: FileQuery) -> Option<String> {
    let path = match query {
        FileQuery::Home { rest } => format!("/home/user/{}", rest),
        FileQuery::Plain { path } => path,
    };
    match path.as_str() {
        "/home/user/term-cast-test" => Some(String::from("/home/user/term-cast-test")),
        "./term-cast-test" | "term-cast-test" => Some(String::from("/work/dir/term-cast-test")),
        "../term-cast-test" => Some(String::from("/work/term-cast-test")),
        _ => None,
    }
}

#[test]
fn queue_file() {
    // Queue up the test file using the absolute path
    let (mut c, _) = Controller::new();
    c.model.input_string = String::from("/home/user/term-cast-test");
    let query = c.file_query();
    assert!(c.queue_file(resolve(query)).is_some());

    // Queue the test file using tilde with absolute path
    c.model.input_string = String::from("~/term-cast-test");
    let query = c.file_query();
    assert!(c.queue_file(resolve(query)).is_some());

    // A test file using a relative path
    c.model.input_string = String::from("./term-cast-test");
    let query = c.file_query();
    assert!(c.queue_file(resolve(query)).is_some());
    c.model.input_string = String::from("term-cast-test");
    let query = c.file_query();
    assert!(c.queue_file(resolve(query)).is_some());

    // A test file using relative previous dir
    c.model.input_string = String::from("../term-cast-test");
    let query = c.file_query();
    assert!(c.queue_file(resolve(query)).is_some());
    assert_eq!(c.model.selected_file, Some(String::from("/work/term-cast-test")));

    // A file that is not there
    c.model.input_string = String::from("~/missing");
    let query = c.file_query();
    assert!(c.queue_file(resolve(query)).is_none());
    assert_eq!(c.model.selected_file, None);
}
