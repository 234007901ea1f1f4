use term_cast::app::{Controller, FileQuery, KeyOutcome, Mode, UIEvent};
use term_cast::event_loop::{decide, forward, handle_ui_event, is_interrupt, LoopStep, Ticker};
use term_cast::keys::{KeyCode, KeyEvent, ALT, CONTROL, NONE, SHIFT};
use term_cast::signal::ShutdownPoll;
use term_cast::text::{delete, erase, insert_char, is_editable, length};

fn key(code: KeyCode) -> Option<UIEvent> {
    Some(UIEvent::Input(KeyEvent::new(code, NONE)))
}

#[test]
fn control_c_interrupts() {
    assert!(is_interrupt(&KeyEvent::new(KeyCode::Char('c'), CONTROL)));
    assert!(!is_interrupt(&KeyEvent::new(KeyCode::Char('c'), NONE)));
    assert!(!is_interrupt(&KeyEvent::new(KeyCode::Char('c'), CONTROL | SHIFT)));
    assert!(!is_interrupt(&KeyEvent::new(KeyCode::Char('c'), ALT)));
    assert!(!is_interrupt(&KeyEvent::new(KeyCode::Char('d'), CONTROL)));
    assert!(!is_interrupt(&KeyEvent::new(KeyCode::Esc, CONTROL)));
}

#[test]
fn an_interrupt_quits_without_reaching_the_controller() {
    let (mut c, rx) = Controller::new();
    c.model.mode = Mode::Input;
    let interrupt = Some(UIEvent::Input(KeyEvent::new(KeyCode::Char('c'), CONTROL)));
    assert_eq!(handle_ui_event(&mut c, interrupt, &rx), LoopStep::Quit);
    assert_eq!(c.model.input_string, "");
}

#[test]
fn keys_reach_the_controller() {
    let (mut c, rx) = Controller::new();
    assert_eq!(
        handle_ui_event(&mut c, key(KeyCode::Char('/')), &rx),
        LoopStep::Continue(KeyOutcome::Handled)
    );
    assert_eq!(c.model.mode, Mode::Input);
    assert_eq!(
        handle_ui_event(&mut c, key(KeyCode::Char('c')), &rx),
        LoopStep::Continue(KeyOutcome::Handled)
    );
    assert_eq!(c.model.input_string, "c");
    assert_eq!(
        handle_ui_event(&mut c, key(KeyCode::Enter), &rx),
        LoopStep::Continue(KeyOutcome::Queue(FileQuery::Plain { path: String::from("c") }))
    );
    assert_eq!(
        handle_ui_event(&mut c, Some(UIEvent::Tick), &rx),
        LoopStep::Continue(KeyOutcome::Handled)
    );
    assert_eq!(handle_ui_event(&mut c, None, &rx), LoopStep::Continue(KeyOutcome::Handled));
    assert_eq!(c.model.input_string, "c");
}

#[test]
fn the_shutdown_key_quits_the_loop() {
    let (mut c, rx) = Controller::new();
    assert_eq!(handle_ui_event(&mut c, key(KeyCode::Char('q')), &rx), LoopStep::Quit);
}

#[test]
fn a_lost_shutdown_sender_quits_the_loop() {
    let (c, rx) = Controller::new();
    drop(c);
    let (mut other, _other_rx) = Controller::new();
    assert_eq!(handle_ui_event(&mut other, Some(UIEvent::Tick), &rx), LoopStep::Quit);
}

#[test]
fn forward_hands_keys_on_and_decide_looks_at_the_signal() {
    let (mut c, _rx) = Controller::new();
    assert_eq!(forward(&mut c, key(KeyCode::Char('?'))), Some(KeyOutcome::Handled));
    assert_eq!(c.model.mode, Mode::Help);
    assert_eq!(forward(&mut c, Some(UIEvent::Tick)), Some(KeyOutcome::Handled));
    assert_eq!(
        forward(&mut c, Some(UIEvent::Input(KeyEvent::new(KeyCode::Char('c'), CONTROL)))),
        None
    );
    assert_eq!(c.model.mode, Mode::Help);
    assert_eq!(
        decide(Some(KeyOutcome::Handled), ShutdownPoll::Empty),
        LoopStep::Continue(KeyOutcome::Handled)
    );
    assert_eq!(decide(Some(KeyOutcome::Handled), ShutdownPoll::Signalled), LoopStep::Quit);
    assert_eq!(decide(Some(KeyOutcome::Shutdown), ShutdownPoll::Disconnected), LoopStep::Quit);
    assert_eq!(decide(None, ShutdownPoll::Empty), LoopStep::Quit);
    assert!(ShutdownPoll::Signalled.must_stop());
    assert!(ShutdownPoll::Disconnected.must_stop());
    assert!(!ShutdownPoll::Empty.must_stop());
}

#[test]
fn ticks_come_at_the_tick_rate() {
    let mut ticker = Ticker::start(250, 1000);
    assert!(!ticker.is_due(1000));
    assert!(!ticker.is_due(1249));
    assert!(ticker.is_due(1250));
    assert!(!ticker.is_due(900));
    ticker.restart(1260);
    assert_eq!(ticker, Ticker { last_tick_ms: 1260, tick_rate_ms: 250 });
    assert!(!ticker.is_due(1500));
    assert!(ticker.is_due(1510));
    assert!(Ticker::start(0, 7).is_due(7));
}

#[test]
fn lines_are_edited_at_the_cursor() {
    let mut line = String::from("foo bar");
    assert_eq!(length(&line), 7);
    delete(&mut line, 3);
    assert_eq!(line, "foobar");
    delete(&mut line, 6);
    assert_eq!(line, "foobar");
    delete(&mut line, 5);
    assert_eq!(line, "fooba");
    assert_eq!(erase(&mut line, 0), 0);
    assert_eq!(line, "fooba");
    assert_eq!(erase(&mut line, 1), 0);
    assert_eq!(line, "ooba");
    assert_eq!(erase(&mut line, 4), 3);
    assert_eq!(line, "oob");
    assert_eq!(insert_char(&mut line, 0, 'z'), 1);
    assert_eq!(line, "zoob");
    assert_eq!(insert_char(&mut line, 4, '!'), 5);
    assert_eq!(line, "zoob!");
    let mut empty = String::new();
    delete(&mut empty, 0);
    assert_eq!(erase(&mut empty, 0), 0);
    assert_eq!(empty, "");
}

#[test]
fn only_ascii_lines_with_the_cursor_inside_are_editable() {
    assert!(is_editable(&String::from("abc"), 0));
    assert!(is_editable(&String::from("abc"), 3));
    assert!(!is_editable(&String::from("abc"), 4));
    assert!(is_editable(&String::new(), 0));
    assert!(!is_editable(&String::from("h\u{e9}"), 1));
}
