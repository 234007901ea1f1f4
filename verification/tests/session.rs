use std::collections::VecDeque;
use term_cast::cast::device::{
    media_status, Application, DeviceCall, DeviceMessage, DeviceReply, Heartbeat, MediaStatus,
    MessageKind, PlayerState, Seconds, StatusEntry,
};
use term_cast::cast::error::CastError;
use term_cast::cast::session::{
    handle_device_status, Action, Event, Phase, Session, SessionConfig, Step, POLL_INTERVAL_MS,
};
use term_cast::cast::Caster;
use term_cast::signal::ShutdownPoll;

fn done() -> Event {
    Event::Device(DeviceReply::Done)
}

fn failed(reason: &str) -> Event {
    Event::Device(DeviceReply::Failed { reason: String::from(reason) })
}

fn launched() -> Event {
    Event::Device(DeviceReply::Launched {
        app: Application { transport_id: String::from("web-1"), session_id: String::from("s-7") },
    })
}

fn message(kind: MessageKind, detail: &str) -> DeviceMessage {
    DeviceMessage { kind, detail: String::from(detail) }
}

fn inbound(kind: MessageKind, detail: &str) -> Event {
    Event::Device(DeviceReply::Inbound { message: Some(message(kind, detail)) })
}

fn nothing_inbound() -> Event {
    Event::Device(DeviceReply::Inbound { message: None })
}

fn entry(state: PlayerState) -> StatusEntry {
    StatusEntry {
        media_session_id: 1,
        player_state: state,
        position: Some(Seconds { bits: (0.0f64).to_bits() }),
        duration: None,
    }
}

fn start(now_ms: u64) -> (Session, Action) {
    let (session, action, _caster) = Caster::launch_media(
        "192.168.1.50",
        "http://192.168.1.20:1544",
        SessionConfig::standard(),
        now_ms,
    );
    (session, action)
}

/// A session that has come through the handshake and waits for the first look at the
/// shutdown signal.
fn running(now_ms: u64) -> Session {
    let (mut session, _) = start(now_ms);
    session.handle(done());
    session.handle(done());
    session.handle(done());
    session.handle(launched());
    session.handle(done());
    assert_eq!(session.handle(done()), Action::CheckShutdown);
    session
}

#[test]
fn launch_walks_through_the_handshake() {
    let (mut session, first) = start(5);
    assert_eq!(
        first,
        Action::Device(DeviceCall::OpenTransport {
            address: String::from("192.168.1.50"),
            port: 8009
        })
    );
    assert_eq!(session.phase(), Phase::Connecting);
    assert_eq!(session.last_poll_ms(), 5);
    assert_eq!(
        session.handle(done()),
        Action::Device(DeviceCall::ConnectChannel { destination: String::from("receiver-0") })
    );
    assert_eq!(session.handle(done()), Action::Device(DeviceCall::Ping));
    assert_eq!(session.phase(), Phase::Connecting);
    assert_eq!(session.handle(done()), Action::Device(DeviceCall::LaunchApp));
    assert_eq!(session.phase(), Phase::AppLaunching);
    assert_eq!(
        session.handle(launched()),
        Action::Device(DeviceCall::ConnectChannel { destination: String::from("web-1") })
    );
    assert_eq!(session.phase(), Phase::MediaLoading);
    assert_eq!(
        session.handle(done()),
        Action::Device(DeviceCall::Load {
            transport_id: String::from("web-1"),
            session_id: String::from("s-7"),
            content_id: String::from("http://192.168.1.20:1544"),
            content_type: String::from("video/mp4"),
        })
    );
    assert_eq!(session.phase(), Phase::MediaLoading);
    assert_eq!(session.handle(done()), Action::CheckShutdown);
    assert_eq!(session.phase(), Phase::Running);
    assert_eq!(session.step(), Step::CheckingShutdown);
    assert_eq!(session.result(), Ok(()));
}

#[test]
fn failure_to_open_the_transport_ends_the_session_at_once() {
    let (mut session, _) = start(0);
    assert_eq!(
        session.handle(failed("no route")),
        Action::Finish { result: Err(CastError::ProtocolError(String::from("no route"))) }
    );
    assert_eq!(session.phase(), Phase::Stopped);
    assert_eq!(
        session.handle(done()),
        Action::Finish { result: Err(CastError::ProtocolError(String::from("no route"))) }
    );
}

#[test]
fn failure_during_startup_releases_the_transport_and_reports() {
    for failing_step in 1..6 {
        let (mut session, _) = start(0);
        let replies = [done(), done(), done(), launched(), done(), done()];
        let mut i = 0;
        for reply in replies {
            if i == failing_step {
                break;
            }
            session.handle(reply);
            i += 1;
        }
        assert_eq!(session.handle(failed("refused")), Action::Device(DeviceCall::Release));
        assert_eq!(session.phase(), Phase::ShuttingDown);
        assert_eq!(
            session.handle(done()),
            Action::Finish { result: Err(CastError::ProtocolError(String::from("refused"))) }
        );
        assert_eq!(session.phase(), Phase::Stopped);
    }
}

#[test]
fn an_unexpected_event_ends_the_session_with_an_error() {
    let mut session = running(0);
    assert_eq!(session.handle(Event::Clock { now_ms: 3 }), Action::Device(DeviceCall::Release));
    assert_eq!(
        session.handle(done()),
        Action::Finish { result: Err(CastError::CasterError(String::from("unexpected event"))) }
    );
    let (mut unopened, _) = start(0);
    assert_eq!(
        unopened.handle(Event::Shutdown(ShutdownPoll::Signalled)),
        Action::Finish { result: Err(CastError::CasterError(String::from("unexpected event"))) }
    );
}

#[test]
fn inbound_messages_are_logged_by_channel() {
    let cases = [
        (MessageKind::Connection, "Connect", "[Device=>Connection] Connect"),
        (MessageKind::Media, "Status", "[Device=>Media] Status"),
        (MessageKind::Receiver, "Status", "[Device=>Receiver] Status"),
        (MessageKind::Heartbeat(Heartbeat::Pong), "Pong", "[Heartbeat] Pong"),
        (MessageKind::Heartbeat(Heartbeat::Other), "X", "[Heartbeat] X"),
        (
            MessageKind::Raw,
            "bytes",
            "[Device] Message could not \n                                            be parsed: bytes",
        ),
    ];
    for (kind, detail, line) in cases {
        assert_eq!(handle_device_status(&message(kind, detail)), (String::from(line), false));
        let mut session = running(0);
        session.handle(Event::Shutdown(ShutdownPoll::Empty));
        assert_eq!(
            session.handle(inbound(kind, detail)),
            Action::PublishLog { line: String::from(line) }
        );
        assert_eq!(session.handle(Event::Published { delivered: true }), Action::ReadClock);
    }
}

#[test]
fn a_ping_is_answered_before_it_is_logged() {
    assert_eq!(
        handle_device_status(&message(MessageKind::Heartbeat(Heartbeat::Ping), "Ping")),
        (String::from("[Heartbeat] Ping"), true)
    );
    let mut session = running(0);
    assert_eq!(
        session.handle(Event::Shutdown(ShutdownPoll::Empty)),
        Action::Device(DeviceCall::Receive)
    );
    assert_eq!(
        session.handle(inbound(MessageKind::Heartbeat(Heartbeat::Ping), "Ping")),
        Action::Device(DeviceCall::Pong)
    );
    assert_eq!(session.step(), Step::Replying);
    assert_eq!(
        session.handle(done()),
        Action::PublishLog { line: String::from("[Heartbeat] Ping") }
    );
    assert_eq!(session.handle(Event::Published { delivered: false }), Action::ReadClock);
    assert_eq!(session.handle(Event::Clock { now_ms: 10 }), Action::CheckShutdown);
}

#[test]
fn a_pong_that_cannot_be_sent_ends_the_session() {
    let mut session = running(0);
    session.handle(Event::Shutdown(ShutdownPoll::Empty));
    session.handle(inbound(MessageKind::Heartbeat(Heartbeat::Ping), "Ping"));
    assert_eq!(session.handle(failed("broken pipe")), Action::Device(DeviceCall::Release));
    assert_eq!(
        session.handle(done()),
        Action::Finish { result: Err(CastError::ProtocolError(String::from("broken pipe"))) }
    );
}

#[test]
fn a_receive_error_does_not_end_the_session() {
    let mut session = running(0);
    session.handle(Event::Shutdown(ShutdownPoll::Empty));
    assert_eq!(session.handle(failed("timed out")), Action::ReadClock);
    assert_eq!(session.phase(), Phase::Running);
    assert_eq!(session.handle(Event::Clock { now_ms: 1 }), Action::CheckShutdown);
    session.handle(Event::Shutdown(ShutdownPoll::Empty));
    assert_eq!(session.handle(nothing_inbound()), Action::ReadClock);
    assert_eq!(session.result(), Ok(()));
}

#[test]
fn status_is_polled_when_a_second_has_passed() {
    let mut session = running(100);
    session.handle(Event::Shutdown(ShutdownPoll::Empty));
    session.handle(nothing_inbound());
    // 999 ms after the launch: too early
    assert_eq!(session.handle(Event::Clock { now_ms: 1099 }), Action::CheckShutdown);
    session.handle(Event::Shutdown(ShutdownPoll::Empty));
    session.handle(nothing_inbound());
    // 1000 ms after the launch: due
    assert_eq!(
        session.handle(Event::Clock { now_ms: 1100 }),
        Action::Device(DeviceCall::MediaStatus { transport_id: String::from("web-1") })
    );
    let entries = vec![entry(PlayerState::Buffering), entry(PlayerState::Paused)];
    assert_eq!(
        session.handle(Event::Device(DeviceReply::MediaEntries { entries })),
        Action::PublishStatus { status: MediaStatus::Active(entry(PlayerState::Buffering)) }
    );
    assert_eq!(session.handle(Event::Published { delivered: true }), Action::ReadClock);
    assert_eq!(session.last_poll_ms(), 100);
    assert_eq!(session.handle(Event::Clock { now_ms: 1130 }), Action::CheckShutdown);
    assert_eq!(session.last_poll_ms(), 1130);
    session.handle(Event::Shutdown(ShutdownPoll::Empty));
    session.handle(nothing_inbound());
    assert_eq!(session.handle(Event::Clock { now_ms: 2129 }), Action::CheckShutdown);
}

#[test]
fn a_clock_that_ran_backwards_asks_for_no_poll() {
    let mut session = running(5000);
    session.handle(Event::Shutdown(ShutdownPoll::Empty));
    session.handle(nothing_inbound());
    assert_eq!(session.handle(Event::Clock { now_ms: 0 }), Action::CheckShutdown);
}

#[test]
fn no_status_entry_is_reported_as_inactive() {
    assert_eq!(media_status(&Vec::new()), MediaStatus::Inactive);
    assert_eq!(
        media_status(&vec![entry(PlayerState::Playing)]),
        MediaStatus::Active(entry(PlayerState::Playing))
    );
    let mut session = running(0);
    session.handle(Event::Shutdown(ShutdownPoll::Empty));
    session.handle(nothing_inbound());
    session.handle(Event::Clock { now_ms: POLL_INTERVAL_MS });
    assert_eq!(
        session.handle(Event::Device(DeviceReply::MediaEntries { entries: Vec::new() })),
        Action::PublishStatus { status: MediaStatus::Inactive }
    );
    // the session goes on polling: to stop is for the consumer to ask
    session.handle(Event::Published { delivered: true });
    assert_eq!(session.handle(Event::Clock { now_ms: 1001 }), Action::CheckShutdown);
    assert_eq!(session.phase(), Phase::Running);
}

#[test]
fn a_failed_poll_ends_the_session() {
    let mut session = running(0);
    session.handle(Event::Shutdown(ShutdownPoll::Empty));
    session.handle(nothing_inbound());
    session.handle(Event::Clock { now_ms: 1000 });
    assert_eq!(session.handle(failed("closed")), Action::Device(DeviceCall::Release));
    assert_eq!(
        session.handle(done()),
        Action::Finish { result: Err(CastError::ProtocolError(String::from("closed"))) }
    );
}

#[test]
fn shutdown_releases_the_transport_and_stops() {
    for poll in [ShutdownPoll::Signalled, ShutdownPoll::Disconnected] {
        let mut session = running(0);
        assert_eq!(session.handle(Event::Shutdown(poll)), Action::Device(DeviceCall::Release));
        assert_eq!(session.phase(), Phase::ShuttingDown);
        assert_eq!(session.handle(done()), Action::Finish { result: Ok(()) });
        assert_eq!(session.phase(), Phase::Stopped);
        // whatever comes now, nothing is polled and nothing answered
        assert_eq!(session.handle(Event::Clock { now_ms: 99_000 }), Action::Finish { result: Ok(()) });
        assert_eq!(
            session.handle(inbound(MessageKind::Heartbeat(Heartbeat::Ping), "Ping")),
            Action::Finish { result: Ok(()) }
        );
        assert_eq!(session.phase(), Phase::Stopped);
    }
}

/// A device that answers every call, and the world around a session.
struct World {
    inbound: VecDeque<DeviceMessage>,
    entries: Vec<StatusEntry>,
    now_ms: u64,
    /// The clock moves on by one millisecond every `reads_per_ms` readings.
    reads_per_ms: u64,
    reads: u64,
    shutdown_at_ms: u64,
    polls_at: Vec<u64>,
    pongs: usize,
    logs: Vec<String>,
    statuses: Vec<MediaStatus>,
    released: bool,
}

fn world(reads_per_ms: u64, shutdown_at_ms: u64) -> World {
    World {
        inbound: VecDeque::new(),
        entries: vec![entry(PlayerState::Buffering)],
        now_ms: 0,
        reads_per_ms,
        reads: 0,
        shutdown_at_ms,
        polls_at: Vec::new(),
        pongs: 0,
        logs: Vec::new(),
        statuses: Vec::new(),
        released: false,
    }
}

fn perform(world: &mut World, action: Action) -> Option<Event> {
    match action {
        Action::Device(call) => Some(Event::Device(match call {
            DeviceCall::LaunchApp => DeviceReply::Launched {
                app: Application {
                    transport_id: String::from("web-1"),
                    session_id: String::from("s-7"),
                },
            },
            DeviceCall::Receive => DeviceReply::Inbound { message: world.inbound.pop_front() },
            DeviceCall::MediaStatus { .. } => {
                world.polls_at.push(world.now_ms);
                DeviceReply::MediaEntries { entries: world.entries.clone() }
            }
            DeviceCall::Pong => {
                world.pongs += 1;
                DeviceReply::Done
            }
            DeviceCall::Release => {
                world.released = true;
                DeviceReply::Done
            }
            _ => DeviceReply::Done,
        })),
        Action::CheckShutdown => Some(Event::Shutdown(if world.now_ms >= world.shutdown_at_ms {
            ShutdownPoll::Signalled
        } else {
            ShutdownPoll::Empty
        })),
        Action::ReadClock => {
            world.reads += 1;
            if world.reads % world.reads_per_ms == 0 {
                world.now_ms += 1;
            }
            Some(Event::Clock { now_ms: world.now_ms })
        }
        Action::PublishLog { line } => {
            world.logs.push(line);
            Some(Event::Published { delivered: true })
        }
        Action::PublishStatus { status } => {
            world.statuses.push(status);
            Some(Event::Published { delivered: true })
        }
        Action::Finish { result } => {
            assert_eq!(result, Ok(()));
            None
        }
    }
}

fn drive(world: &mut World) -> Session {
    let (mut session, mut action) = start(world.now_ms);
    loop {
        match perform(world, action) {
            Some(event) => action = session.handle(event),
            None => return session,
        }
    }
}

#[test]
fn a_burst_of_messages_does_not_speed_up_the_polls() {
    // a thousand messages within ten milliseconds, then quiet until 3.5 s
    let mut w = world(100, 3500);
    for i in 0..1000 {
        w.inbound.push_back(message(MessageKind::Media, &format!("m{}", i)));
    }
    let session = drive(&mut w);
    assert_eq!(session.phase(), Phase::Stopped);
    assert!(w.released);
    assert_eq!(w.logs.len(), 1000);
    assert_eq!(w.logs[0], "[Device=>Media] m0");
    assert_eq!(w.logs[999], "[Device=>Media] m999");
    assert_eq!(w.polls_at.len(), 3);
    assert_eq!(w.polls_at[0], 1000);
    for i in 1..w.polls_at.len() {
        assert!(w.polls_at[i] - w.polls_at[i - 1] >= 1000);
    }
    assert_eq!(w.statuses.len(), 3);
}

#[test]
fn every_ping_gets_exactly_one_pong() {
    let mut w = world(1, 50);
    w.inbound.push_back(message(MessageKind::Heartbeat(Heartbeat::Ping), "Ping"));
    w.inbound.push_back(message(MessageKind::Receiver, "Status"));
    w.inbound.push_back(message(MessageKind::Heartbeat(Heartbeat::Pong), "Pong"));
    w.inbound.push_back(message(MessageKind::Heartbeat(Heartbeat::Ping), "Ping"));
    w.inbound.push_back(message(MessageKind::Heartbeat(Heartbeat::Ping), "Ping"));
    drive(&mut w);
    assert_eq!(w.pongs, 3);
    assert_eq!(
        w.logs,
        vec![
            "[Heartbeat] Ping",
            "[Device=>Receiver] Status",
            "[Heartbeat] Pong",
            "[Heartbeat] Ping",
            "[Heartbeat] Ping"
        ]
    );
}

#[test]
fn spawn_addresses_the_device_in_the_standard_way() {
    let (session, first, caster) =
        Caster::spawn(String::from("10.0.0.9"), "http://10.0.0.2:1544", 42);
    assert_eq!(
        first,
        Action::Device(DeviceCall::OpenTransport { address: String::from("10.0.0.9"), port: 8009 })
    );
    assert_eq!(session.last_poll_ms(), 42);
    assert_eq!(session.phase(), Phase::Connecting);
    assert_eq!(caster.device_addr(), "10.0.0.9");
    assert_eq!(
        caster.connect(),
        DeviceCall::OpenTransport { address: String::from("10.0.0.9"), port: 8009 }
    );
}

#[test]
fn a_session_uses_the_configuration_it_is_given() {
    let config = SessionConfig {
        destination_id: String::from("receiver-9"),
        port: 18009,
        content_type: String::from("audio/mp3"),
    };
    let (mut session, first, _caster) = Caster::launch_media("tv", "http://h/a", config, 0);
    assert_eq!(
        first,
        Action::Device(DeviceCall::OpenTransport { address: String::from("tv"), port: 18009 })
    );
    assert_eq!(
        session.handle(done()),
        Action::Device(DeviceCall::ConnectChannel { destination: String::from("receiver-9") })
    );
    session.handle(done());
    session.handle(done());
    session.handle(launched());
    assert_eq!(
        session.handle(done()),
        Action::Device(DeviceCall::Load {
            transport_id: String::from("web-1"),
            session_id: String::from("s-7"),
            content_id: String::from("http://h/a"),
            content_type: String::from("audio/mp3"),
        })
    );
}
