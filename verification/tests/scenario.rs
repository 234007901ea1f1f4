use term_cast::cast::command::{Directive, Dispatch};
use term_cast::cast::device::{
    Application, DeviceCall, DeviceReply, MediaStatus, PlayerState, Seconds, StatusEntry,
};
use term_cast::cast::discovery::{find_device_ips, DeviceAddress, Record, RecordKind};
use term_cast::cast::error::CastError;
use term_cast::cast::session::{Action, Event, Phase, Session, SessionConfig};
use term_cast::cast::Caster;
use term_cast::media::media_url;
use term_cast::signal::ShutdownPoll;

/// A receiver device: it plays what was loaded until it is stopped.
struct Device {
    app_running: bool,
    player: Option<PlayerState>,
    loaded_from: Option<String>,
    transports_open: usize,
}

impl Device {
    fn answer(&mut self, call: DeviceCall) -> DeviceReply {
        match call {
            DeviceCall::OpenTransport { address, port } => {
                assert_eq!(address, "192.168.1.50");
                assert_eq!(port, 8009);
                self.transports_open += 1;
                DeviceReply::Done
            }
            DeviceCall::Release => {
                self.transports_open -= 1;
                DeviceReply::Done
            }
            DeviceCall::LaunchApp => {
                self.app_running = true;
                DeviceReply::Launched { app: self.app() }
            }
            DeviceCall::ReceiverStatus => DeviceReply::Applications {
                apps: if self.app_running { vec![self.app()] } else { Vec::new() },
            },
            DeviceCall::Load { content_id, .. } => {
                self.loaded_from = Some(content_id);
                self.player = Some(PlayerState::Buffering);
                DeviceReply::Done
            }
            DeviceCall::MediaStatus { .. } => DeviceReply::MediaEntries {
                entries: match self.player {
                    Some(player_state) => vec![StatusEntry {
                        media_session_id: 1,
                        player_state,
                        position: Some(Seconds { bits: (0.0f64).to_bits() }),
                        duration: None,
                    }],
                    None => Vec::new(),
                },
            },
            DeviceCall::Play { .. } => {
                self.player = Some(PlayerState::Playing);
                DeviceReply::Done
            }
            DeviceCall::Pause { .. } => {
                self.player = Some(PlayerState::Paused);
                DeviceReply::Done
            }
            DeviceCall::Stop { .. } => {
                self.player = None;
                DeviceReply::Done
            }
            DeviceCall::Receive => DeviceReply::Inbound { message: None },
            _ => DeviceReply::Done,
        }
    }

    fn app(&self) -> Application {
        Application { transport_id: String::from("web-1"), session_id: String::from("s-7") }
    }
}

/// The consumer's side of a session: the clock, the shutdown signal and what was published.
struct Consumer {
    now_ms: u64,
    shutdown: bool,
    statuses: Vec<(u64, MediaStatus)>,
    result: Option<Result<(), CastError>>,
}

/// Runs the session until it has published `polls` statuses in all, or is over.
fn run_session(
    session: &mut Session,
    pending: Action,
    device: &mut Device,
    consumer: &mut Consumer,
    polls: usize,
) -> Option<Action> {
    let mut action = pending;
    loop {
        let event = match action {
            Action::Device(call) => Event::Device(device.answer(call)),
            Action::CheckShutdown => {
                if consumer.statuses.len() >= polls && !consumer.shutdown {
                    return Some(Action::CheckShutdown);
                }
                Event::Shutdown(if consumer.shutdown {
                    ShutdownPoll::Signalled
                } else {
                    ShutdownPoll::Empty
                })
            }
            Action::ReadClock => {
                consumer.now_ms += 100;
                Event::Clock { now_ms: consumer.now_ms }
            }
            Action::PublishLog { .. } => Event::Published { delivered: true },
            Action::PublishStatus { status } => {
                consumer.statuses.push((consumer.now_ms, status));
                Event::Published { delivered: true }
            }
            Action::Finish { result } => {
                consumer.result = Some(result);
                return None;
            }
        };
        action = session.handle(event);
    }
}

fn run_command(started: (Dispatch, Directive), device: &mut Device) -> Result<(), CastError> {
    let (mut dispatch, mut directive) = started;
    loop {
        match directive {
            Directive::Call(call) => directive = dispatch.handle(device.answer(call)),
            Directive::Complete { result } => return result,
        }
    }
}

fn dotted(address: DeviceAddress) -> String {
    match address {
        DeviceAddress::V4(bits) => {
            format!("{}.{}.{}.{}", bits >> 24, (bits >> 16) & 255, (bits >> 8) & 255, bits & 255)
        }
        DeviceAddress::V6(bits) => format!("{:x}", bits),
    }
}

fn active(state: PlayerState) -> MediaStatus {
    MediaStatus::Active(StatusEntry {
        media_session_id: 1,
        player_state: state,
        position: Some(Seconds { bits: (0.0f64).to_bits() }),
        duration: None,
    })
}

#[test]
fn cast_resume_stop_and_shut_down() {
    // discovery hears one device
    let heard = vec![vec![Record { kind: RecordKind::A((192 << 24) | (168 << 16) | (1 << 8) | 50) }]];
    let addresses: Vec<String> = find_device_ips(&heard).into_iter().map(dotted).collect();
    assert_eq!(addresses, vec!["192.168.1.50"]);

    // the media host serves the file
    let url = media_url("192.168.1.20");
    assert_eq!(url, "http://192.168.1.20:1544");

    // the session launches against the device with that URL
    let mut device =
        Device { app_running: false, player: None, loaded_from: None, transports_open: 0 };
    let mut consumer = Consumer { now_ms: 0, shutdown: false, statuses: Vec::new(), result: None };
    let (mut session, first, caster) =
        Caster::launch_media(&addresses[0], &url, SessionConfig::standard(), consumer.now_ms);
    let pending = run_session(&mut session, first, &mut device, &mut consumer, 1).unwrap();
    assert_eq!(device.loaded_from, Some(String::from("http://192.168.1.20:1544")));
    assert_eq!(session.phase(), Phase::Running);

    // the first poll, a second after the launch, finds the media buffering
    assert_eq!(consumer.statuses.len(), 1);
    assert!(consumer.statuses[0].0 >= 1000);
    assert_eq!(consumer.statuses[0].1, active(PlayerState::Buffering));

    // resume: the next polls find it playing
    assert_eq!(run_command(caster.resume(), &mut device), Ok(()));
    assert_eq!(device.transports_open, 1);
    let pending = run_session(&mut session, pending, &mut device, &mut consumer, 3).unwrap();
    assert_eq!(consumer.statuses[1].1, active(PlayerState::Playing));
    assert_eq!(consumer.statuses[2].1, active(PlayerState::Playing));

    // stop: the next poll finds no media
    assert_eq!(run_command(caster.stop(), &mut device), Ok(()));
    let pending = run_session(&mut session, pending, &mut device, &mut consumer, 4).unwrap();
    assert_eq!(consumer.statuses[3].1, MediaStatus::Inactive);

    // while no media is active every command is refused, and the session goes on
    assert_eq!(run_command(caster.pause(), &mut device), Err(CastError::NoActiveMedia));
    assert_eq!(run_command(caster.resume(), &mut device), Err(CastError::NoActiveMedia));
    assert_eq!(
        run_command(caster.seek(Seconds { bits: (-1.0f64).to_bits() }), &mut device),
        Err(CastError::NoActiveMedia)
    );
    assert_eq!(session.phase(), Phase::Running);
    assert_eq!(device.transports_open, 1);

    // the polls were at least a second apart
    for i in 1..consumer.statuses.len() {
        assert!(consumer.statuses[i].0 - consumer.statuses[i - 1].0 >= 1000);
    }

    // the consumer asks for the shutdown
    consumer.shutdown = true;
    assert_eq!(run_session(&mut session, pending, &mut device, &mut consumer, 4), None);
    assert_eq!(consumer.result, Some(Ok(())));
    assert_eq!(session.phase(), Phase::Stopped);
    assert_eq!(device.transports_open, 0);
    assert_eq!(consumer.statuses.len(), 4);
}
