//! The life of one device session, as a state machine.
//!
//! A session opens a transport to the device, launches the media receiver,
//! loads the media and then runs: on every iteration it looks at the shutdown
//! signal, takes at most one inbound message, answers a heartbeat ping with a
//! pong, and polls the playback status at most once per
//! [`POLL_INTERVAL_MS`]. The machine performs none of this itself. It names
//! the next operation as an [`Action`]; the driver performs it and hands the
//! outcome back as an [`Event`].

use vstd::prelude::*;
use vstd::string::StringExecFns;
use crate::cast::device::{
    DeviceCall, DeviceCallView, DeviceMessage, DeviceMessageView, DeviceReply, DeviceReplyView,
    Heartbeat, MediaStatus, MessageKind, media_status, status_of,
};
use crate::cast::error::{CastError, CastErrorView, outcome_view};
use crate::signal::ShutdownPoll;

verus! {

/// Least time between two status polls, in milliseconds.
pub const POLL_INTERVAL_MS: u64 = 1000;

/// The stages of a session.
#[derive(Clone, Copy, Debug, PartialEq, Eq, Structural)]
pub enum Phase {
    Connecting,
    AppLaunching,
    MediaLoading,
    Running,
    ShuttingDown,
    Stopped,
}

/// The operation a session is waiting for.
#[derive(Clone, Copy, Debug, PartialEq, Eq, Structural)]
pub enum Step {
    OpeningTransport,
    ConnectingControl,
    Pinging,
    Launching,
    ConnectingApp,
    Loading,
    CheckingShutdown,
    Receiving,
    Replying,
    Logging,
    ReadingClock,
    Polling,
    Reporting,
    Stamping,
    Releasing,
    Stopped,
}

/// The stage a step belongs to.
pub open spec fn phase_of(step: Step) -> Phase {
    match step {
        Step::OpeningTransport | Step::ConnectingControl | Step::Pinging => Phase::Connecting,
        Step::Launching => Phase::AppLaunching,
        Step::ConnectingApp | Step::Loading => Phase::MediaLoading,
        Step::CheckingShutdown
        | Step::Receiving
        | Step::Replying
        | Step::Logging
        | Step::ReadingClock
        | Step::Polling
        | Step::Reporting
        | Step::Stamping => Phase::Running,
        Step::Releasing => Phase::ShuttingDown,
        Step::Stopped => Phase::Stopped,
    }
}

/// The outcome of the operation a session was waiting for.
#[derive(Debug, PartialEq, Eq)]
pub enum Event {
    /// The protocol layer's answer to a [`DeviceCall`].
    Device(DeviceReply),
    /// The shutdown signal was looked at.
    Shutdown(ShutdownPoll),
    /// The clock was read: milliseconds on a clock that never runs backwards.
    Clock { now_ms: u64 },
    /// A log line or a status was handed to its channel.
    Published { delivered: bool },
}

/// Mathematical value of an [`Event`].
pub enum EventView {
    Device(DeviceReplyView),
    Shutdown(ShutdownPoll),
    Clock { now_ms: u64 },
    Published { delivered: bool },
}

impl View for Event {
    type V = EventView;

    open spec fn view(&self) -> EventView {
        match self {
            Event::Device(reply) => EventView::Device(reply@),
            Event::Shutdown(poll) => EventView::Shutdown(*poll),
            Event::Clock { now_ms } => EventView::Clock { now_ms: *now_ms },
            Event::Published { delivered } => EventView::Published { delivered: *delivered },
        }
    }
}

/// What the driver of a session has to do next.
#[derive(Debug, PartialEq, Eq)]
pub enum Action {
    /// Perform the call on the session's transport.
    Device(DeviceCall),
    /// Look at the shutdown signal, without waiting.
    CheckShutdown,
    /// Read the clock.
    ReadClock,
    /// Hand the line to the log channel.
    PublishLog { line: String },
    /// Hand the status to the status channel.
    PublishStatus { status: MediaStatus },
    /// The session is over, with this result.
    Finish { result: Result<(), CastError> },
}

/// Mathematical value of an [`Action`].
pub enum ActionView {
    Device(DeviceCallView),
    CheckShutdown,
    ReadClock,
    PublishLog { line: Seq<char> },
    PublishStatus { status: MediaStatus },
    Finish { result: Result<(), CastErrorView> },
}

impl View for Action {
    type V = ActionView;

    open spec fn view(&self) -> ActionView {
        match self {
            Action::Device(call) => ActionView::Device(call@),
            Action::CheckShutdown => ActionView::CheckShutdown,
            Action::ReadClock => ActionView::ReadClock,
            Action::PublishLog { line } => ActionView::PublishLog { line: line@ },
            Action::PublishStatus { status } => ActionView::PublishStatus { status: *status },
            Action::Finish { result } => ActionView::Finish { result: outcome_view(*result) },
        }
    }
}

/// What a session is started with, besides the device and the media.
#[derive(Debug, PartialEq, Eq)]
pub struct SessionConfig {
    /// Identifier of the device's default control destination.
    pub destination_id: String,
    /// Port of the device's cast service.
    pub port: u16,
    /// MIME type announced for the media.
    pub content_type: String,
}

/// Mathematical value of a [`SessionConfig`].
pub struct SessionConfigView {
    pub destination_id: Seq<char>,
    pub port: u16,
    pub content_type: Seq<char>,
}

impl View for SessionConfig {
    type V = SessionConfigView;

    open spec fn view(&self) -> SessionConfigView {
        SessionConfigView {
            destination_id: self.destination_id@,
            port: self.port,
            content_type: self.content_type@,
        }
    }
}

/// The configuration every receiver device accepts.
pub open spec fn standard_config() -> SessionConfigView {
    SessionConfigView {
        destination_id: "receiver-0"@,
        port: 8009,
        content_type: "video/mp4"@,
    }
}

impl SessionConfig {
    /// The configuration every receiver device accepts.
    pub fn standard() -> (config: SessionConfig)
        ensures
            config@ == standard_config(),
    {
        SessionConfig {
            destination_id: String::from_str("receiver-0"),
            port: 8009,
            content_type: String::from_str("video/mp4"),
        }
    }

    /// An independent copy of the configuration.
    pub fn duplicate(&self) -> (copy: SessionConfig)
        ensures
            copy@ == self@,
    {
        SessionConfig {
            destination_id: self.destination_id.clone(),
            port: self.port,
            content_type: self.content_type.clone(),
        }
    }
}

/// What precedes the rendering of a message in its log line. The prefix of
/// a message that could not be parsed runs over two lines, the second one
/// indented.
pub open spec fn log_prefix(kind: MessageKind) -> Seq<char> {
    match kind {
        MessageKind::Connection => "[Device=>Connection] "@,
        MessageKind::Heartbeat(_) => "[Heartbeat] "@,
        MessageKind::Media => "[Device=>Media] "@,
        MessageKind::Receiver => "[Device=>Receiver] "@,
        MessageKind::Raw => {
            "[Device] Message could not \n                                            be parsed: "@
        },
    }
}

/// The line that the log channel gets for an inbound message.
pub open spec fn log_line(message: DeviceMessageView) -> Seq<char> {
    log_prefix(message.kind) + message.detail
}

/// Whether an inbound message has to be answered with a pong.
pub open spec fn wants_pong(message: DeviceMessageView) -> bool {
    message.kind == MessageKind::Heartbeat(Heartbeat::Ping)
}

/// Classifies one inbound message: the line for the log channel, and whether
/// the device is owed a pong.
pub fn handle_device_status(message: &DeviceMessage) -> (handled: (String, bool))
    ensures
        handled.0@ == log_line(message@),
        handled.1 == wants_pong(message@),
{
    let mut line = match message.kind {
        MessageKind::Connection => String::from_str("[Device=>Connection] "),
        MessageKind::Heartbeat(_) => String::from_str("[Heartbeat] "),
        MessageKind::Media => String::from_str("[Device=>Media] "),
        MessageKind::Receiver => String::from_str("[Device=>Receiver] "),
        MessageKind::Raw => String::from_str(
            "[Device] Message could not \n                                            be parsed: ",
        ),
    };
    line.append(message.detail.as_str());
    let pong = match message.kind {
        MessageKind::Heartbeat(Heartbeat::Ping) => true,
        _ => false,
    };
    (line, pong)
}

/// One device session.
#[derive(Debug, PartialEq, Eq)]
pub struct Session {
    step: Step,
    address: String,
    media_url: String,
    config: SessionConfig,
    transport_id: String,
    session_id: String,
    last_poll_ms: u64,
    pending_line: String,
    failure: Option<CastError>,
}

/// Mathematical value of a [`Session`].
pub struct SessionView {
    /// The operation the session is waiting for.
    pub step: Step,
    /// Address of the device.
    pub address: Seq<char>,
    /// URL of the media to load.
    pub media_url: Seq<char>,
    pub config: SessionConfigView,
    /// Transport identifier of the launched application; empty before the launch.
    pub transport_id: Seq<char>,
    /// Session identifier of the launched application; empty before the launch.
    pub session_id: Seq<char>,
    /// Clock reading that the poll timer was last reset to.
    pub last_poll_ms: u64,
    /// Log line of a ping that waits for its pong to be sent.
    pub pending_line: Seq<char>,
    /// Why the session ends, unless it ends on the shutdown signal.
    pub failure: Option<CastErrorView>,
}

impl View for Session {
    type V = SessionView;

    closed spec fn view(&self) -> SessionView {
        SessionView {
            step: self.step,
            address: self.address@,
            media_url: self.media_url@,
            config: self.config@,
            transport_id: self.transport_id@,
            session_id: self.session_id@,
            last_poll_ms: self.last_poll_ms,
            pending_line: self.pending_line@,
            failure: match self.failure {
                Some(error) => Some(error@),
                None => None,
            },
        }
    }
}

/// A state and the action that led to it.
pub struct Transition {
    pub state: SessionView,
    pub action: ActionView,
}

/// The error reported for an event that the current step does not expect.
pub open spec fn unexpected_event() -> CastErrorView {
    CastErrorView::CasterError("unexpected event"@)
}

/// The session as it starts: nothing launched, the poll timer at `now_ms`.
pub open spec fn initial_session(
    address: Seq<char>,
    media_url: Seq<char>,
    config: SessionConfigView,
    now_ms: u64,
) -> SessionView {
    SessionView {
        step: Step::OpeningTransport,
        address,
        media_url,
        config,
        transport_id: Seq::empty(),
        session_id: Seq::empty(),
        last_poll_ms: now_ms,
        pending_line: Seq::empty(),
        failure: None,
    }
}

impl SessionView {
    /// The stage the session is in.
    pub open spec fn phase(self) -> Phase {
        phase_of(self.step)
    }

    /// The result the session ends with.
    pub open spec fn result(self) -> Result<(), CastErrorView> {
        match self.failure {
            Some(error) => Err(error),
            None => Ok(()),
        }
    }

    /// Whether a status poll is due at clock reading `now_ms`.
    pub open spec fn poll_due(self, now_ms: u64) -> bool {
        now_ms - self.last_poll_ms >= POLL_INTERVAL_MS
    }

    /// Moves on to `step`, asking for `action`.
    pub open spec fn advance(self, step: Step, action: ActionView) -> Transition {
        Transition { state: SessionView { step, ..self }, action }
    }

    /// Moves on to `step`, asking the device for `call`.
    pub open spec fn ask(self, step: Step, call: DeviceCallView) -> Transition {
        self.advance(step, ActionView::Device(call))
    }

    /// Gives the session up while its transport is open: the transport is
    /// released first, the error reported afterwards.
    pub open spec fn abort(self, error: CastErrorView) -> Transition {
        Transition {
            state: SessionView { step: Step::Releasing, failure: Some(error), ..self },
            action: ActionView::Device(DeviceCallView::Release),
        }
    }

    /// Gives up on a failed call, or on an event that was not expected.
    pub open spec fn abort_on(self, event: EventView) -> Transition {
        match event {
            EventView::Device(DeviceReplyView::Failed { reason }) => self.abort(
                CastErrorView::ProtocolError(reason),
            ),
            _ => self.abort(unexpected_event()),
        }
    }

    /// Ends the session with the result it has by now.
    pub open spec fn finish(self) -> Transition {
        Transition {
            state: SessionView { step: Step::Stopped, ..self },
            action: ActionView::Finish { result: self.result() },
        }
    }

    /// Ends a session whose transport never opened.
    pub open spec fn fail_unopened(self, event: EventView) -> Transition {
        let error = match event {
            EventView::Device(DeviceReplyView::Failed { reason }) => CastErrorView::ProtocolError(
                reason,
            ),
            _ => unexpected_event(),
        };
        Transition {
            state: SessionView { step: Step::Stopped, failure: Some(error), ..self },
            action: ActionView::Finish { result: Err(error) },
        }
    }

    /// The call that loads the media into the launched application.
    pub open spec fn load_call(self) -> DeviceCallView {
        DeviceCallView::Load {
            transport_id: self.transport_id,
            session_id: self.session_id,
            content_id: self.media_url,
            content_type: self.config.content_type,
        }
    }

    /// The state after `event`, and the action the driver has to perform next.
    pub open spec fn next(self, event: EventView) -> Transition {
        match self.step {
            Step::OpeningTransport => match event {
                EventView::Device(DeviceReplyView::Done) => self.ask(
                    Step::ConnectingControl,
                    DeviceCallView::ConnectChannel { destination: self.config.destination_id },
                ),
                _ => self.fail_unopened(event),
            },
            Step::ConnectingControl => match event {
                EventView::Device(DeviceReplyView::Done) => self.ask(
                    Step::Pinging,
                    DeviceCallView::Ping,
                ),
                _ => self.abort_on(event),
            },
            Step::Pinging => match event {
                EventView::Device(DeviceReplyView::Done) => self.ask(
                    Step::Launching,
                    DeviceCallView::LaunchApp,
                ),
                _ => self.abort_on(event),
            },
            Step::Launching => match event {
                EventView::Device(DeviceReplyView::Launched { app }) => Transition {
                    state: SessionView {
                        step: Step::ConnectingApp,
                        transport_id: app.transport_id,
                        session_id: app.session_id,
                        ..self
                    },
                    action: ActionView::Device(
                        DeviceCallView::ConnectChannel { destination: app.transport_id },
                    ),
                },
                _ => self.abort_on(event),
            },
            Step::ConnectingApp => match event {
                EventView::Device(DeviceReplyView::Done) => self.ask(
                    Step::Loading,
                    self.load_call(),
                ),
                _ => self.abort_on(event),
            },
            Step::Loading => match event {
                EventView::Device(DeviceReplyView::Done) => self.advance(
                    Step::CheckingShutdown,
                    ActionView::CheckShutdown,
                ),
                _ => self.abort_on(event),
            },
            Step::CheckingShutdown => match event {
                EventView::Shutdown(ShutdownPoll::Empty) => self.ask(
                    Step::Receiving,
                    DeviceCallView::Receive,
                ),
                EventView::Shutdown(_) => self.ask(Step::Releasing, DeviceCallView::Release),
                _ => self.abort_on(event),
            },
            Step::Receiving => match event {
                EventView::Device(DeviceReplyView::Inbound { message: Some(message) }) => {
                    if wants_pong(message) {
                        Transition {
                            state: SessionView {
                                step: Step::Replying,
                                pending_line: log_line(message),
                                ..self
                            },
                            action: ActionView::Device(DeviceCallView::Pong),
                        }
                    } else {
                        self.advance(
                            Step::Logging,
                            ActionView::PublishLog { line: log_line(message) },
                        )
                    }
                },
                EventView::Device(DeviceReplyView::Inbound { message: None }) => self.advance(
                    Step::ReadingClock,
                    ActionView::ReadClock,
                ),
                EventView::Device(DeviceReplyView::Failed { reason }) => self.advance(
                    Step::ReadingClock,
                    ActionView::ReadClock,
                ),
                _ => self.abort_on(event),
            },
            Step::Replying => match event {
                EventView::Device(DeviceReplyView::Done) => self.advance(
                    Step::Logging,
                    ActionView::PublishLog { line: self.pending_line },
                ),
                _ => self.abort_on(event),
            },
            Step::Logging => match event {
                EventView::Published { delivered } => self.advance(
                    Step::ReadingClock,
                    ActionView::ReadClock,
                ),
                _ => self.abort_on(event),
            },
            Step::ReadingClock => match event {
                EventView::Clock { now_ms } => {
                    if self.poll_due(now_ms) {
                        self.ask(
                            Step::Polling,
                            DeviceCallView::MediaStatus { transport_id: self.transport_id },
                        )
                    } else {
                        self.advance(Step::CheckingShutdown, ActionView::CheckShutdown)
                    }
                },
                _ => self.abort_on(event),
            },
            Step::Polling => match event {
                EventView::Device(DeviceReplyView::MediaEntries { entries }) => self.advance(
                    Step::Reporting,
                    ActionView::PublishStatus { status: status_of(entries) },
                ),
                _ => self.abort_on(event),
            },
            Step::Reporting => match event {
                EventView::Published { delivered } => self.advance(
                    Step::Stamping,
                    ActionView::ReadClock,
                ),
                _ => self.abort_on(event),
            },
            Step::Stamping => match event {
                EventView::Clock { now_ms } => Transition {
                    state: SessionView {
                        step: Step::CheckingShutdown,
                        last_poll_ms: now_ms,
                        ..self
                    },
                    action: ActionView::CheckShutdown,
                },
                _ => self.abort_on(event),
            },
            Step::Releasing | Step::Stopped => self.finish(),
        }
    }
}

impl Session {
    /// Starts a session for the device at `address` and the media at
    /// `media_url`. `now_ms` is the clock reading at the start: the first
    /// status poll is due one interval later. The action returned is the
    /// first one to perform.
    pub fn launch(address: &str, media_url: &str, config: SessionConfig, now_ms: u64) -> (started: (
        Session,
        Action,
    ))
        ensures
            started.0@ == initial_session(address@, media_url@, config@, now_ms),
            started.1@ == ActionView::Device(
                DeviceCallView::OpenTransport { address: address@, port: config.port },
            ),
    {
        let port = config.port;
        let session = Session {
            step: Step::OpeningTransport,
            address: String::from_str(address),
            media_url: String::from_str(media_url),
            config,
            transport_id: String::new(),
            session_id: String::new(),
            last_poll_ms: now_ms,
            pending_line: String::new(),
            failure: None,
        };
        let action = Action::Device(
            DeviceCall::OpenTransport { address: String::from_str(address), port },
        );
        (session, action)
    }

    /// The operation the session is waiting for.
    pub fn step(&self) -> (step: Step)
        ensures
            step == self@.step,
    {
        self.step
    }

    /// The stage the session is in.
    pub fn phase(&self) -> (phase: Phase)
        ensures
            phase == self@.phase(),
    {
        match self.step {
            Step::OpeningTransport | Step::ConnectingControl | Step::Pinging => Phase::Connecting,
            Step::Launching => Phase::AppLaunching,
            Step::ConnectingApp | Step::Loading => Phase::MediaLoading,
            Step::CheckingShutdown
            | Step::Receiving
            | Step::Replying
            | Step::Logging
            | Step::ReadingClock
            | Step::Polling
            | Step::Reporting
            | Step::Stamping => Phase::Running,
            Step::Releasing => Phase::ShuttingDown,
            Step::Stopped => Phase::Stopped,
        }
    }

    /// The clock reading that the poll timer was last reset to.
    pub fn last_poll_ms(&self) -> (at: u64)
        ensures
            at == self@.last_poll_ms,
    {
        self.last_poll_ms
    }

    /// The result the session ends with, as far as it is known by now.
    pub fn result(&self) -> (result: Result<(), CastError>)
        ensures
            outcome_view(result) == self@.result(),
    {
        match &self.failure {
            Some(error) => Err(error.duplicate()),
            None => Ok(()),
        }
    }

    fn advance(&mut self, step: Step, action: Action) -> (next: Action)
        ensures
            final(self)@ == old(self)@.advance(step, action@).state,
            next@ == old(self)@.advance(step, action@).action,
    {
        self.step = step;
        action
    }

    fn abort(&mut self, error: CastError) -> (next: Action)
        ensures
            final(self)@ == old(self)@.abort(error@).state,
            next@ == old(self)@.abort(error@).action,
    {
        self.step = Step::Releasing;
        self.failure = Some(error);
        Action::Device(DeviceCall::Release)
    }

    fn abort_on(&mut self, event: Event) -> (next: Action)
        ensures
            final(self)@ == old(self)@.abort_on(event@).state,
            next@ == old(self)@.abort_on(event@).action,
    {
        match event {
            Event::Device(DeviceReply::Failed { reason }) => self.abort(
                CastError::ProtocolError(reason),
            ),
            _ => self.abort(CastError::CasterError(String::from_str("unexpected event"))),
        }
    }

    fn finish(&mut self) -> (next: Action)
        ensures
            final(self)@ == old(self)@.finish().state,
            next@ == old(self)@.finish().action,
    {
        self.step = Step::Stopped;
        Action::Finish { result: self.result() }
    }

    fn fail_unopened(&mut self, event: Event) -> (next: Action)
        ensures
            final(self)@ == old(self)@.fail_unopened(event@).state,
            next@ == old(self)@.fail_unopened(event@).action,
    {
        let error = match event {
            Event::Device(DeviceReply::Failed { reason }) => CastError::ProtocolError(reason),
            _ => CastError::CasterError(String::from_str("unexpected event")),
        };
        let reported = error.duplicate();
        self.step = Step::Stopped;
        self.failure = Some(error);
        Action::Finish { result: Err(reported) }
    }

    /// Takes the outcome of the action that was asked for last and names the
    /// next one.
    pub fn handle(&mut self, event: Event) -> (action: Action)
        ensures
            final(self)@ == old(self)@.next(event@).state,
            action@ == old(self)@.next(event@).action,
    {
        match self.step {
            Step::OpeningTransport => match event {
                Event::Device(DeviceReply::Done) => {
                    let destination = self.config.destination_id.clone();
                    self.advance(
                        Step::ConnectingControl,
                        Action::Device(DeviceCall::ConnectChannel { destination }),
                    )
                },
                other => self.fail_unopened(other),
            },
            Step::ConnectingControl => match event {
                Event::Device(DeviceReply::Done) => self.advance(
                    Step::Pinging,
                    Action::Device(DeviceCall::Ping),
                ),
                other => self.abort_on(other),
            },
            Step::Pinging => match event {
                Event::Device(DeviceReply::Done) => self.advance(
                    Step::Launching,
                    Action::Device(DeviceCall::LaunchApp),
                ),
                other => self.abort_on(other),
            },
            Step::Launching => match event {
                Event::Device(DeviceReply::Launched { app }) => {
                    let destination = app.transport_id.clone();
                    self.transport_id = app.transport_id;
                    self.session_id = app.session_id;
                    self.advance(
                        Step::ConnectingApp,
                        Action::Device(DeviceCall::ConnectChannel { destination }),
                    )
                },
                other => self.abort_on(other),
            },
            Step::ConnectingApp => match event {
                Event::Device(DeviceReply::Done) => {
                    let call = DeviceCall::Load {
                        transport_id: self.transport_id.clone(),
                        session_id: self.session_id.clone(),
                        content_id: self.media_url.clone(),
                        content_type: self.config.content_type.clone(),
                    };
                    self.advance(Step::Loading, Action::Device(call))
                },
                other => self.abort_on(other),
            },
            Step::Loading => match event {
                Event::Device(DeviceReply::Done) => self.advance(
                    Step::CheckingShutdown,
                    Action::CheckShutdown,
                ),
                other => self.abort_on(other),
            },
            Step::CheckingShutdown => match event {
                Event::Shutdown(ShutdownPoll::Empty) => self.advance(
                    Step::Receiving,
                    Action::Device(DeviceCall::Receive),
                ),
                Event::Shutdown(_) => self.advance(
                    Step::Releasing,
                    Action::Device(DeviceCall::Release),
                ),
                other => self.abort_on(other),
            },
            Step::Receiving => match event {
                Event::Device(DeviceReply::Inbound { message: Some(message) }) => {
                    let (line, pong) = handle_device_status(&message);
                    if pong {
                        self.pending_line = line;
                        self.advance(Step::Replying, Action::Device(DeviceCall::Pong))
                    } else {
                        self.advance(Step::Logging, Action::PublishLog { line })
                    }
                },
                Event::Device(DeviceReply::Inbound { message: None }) => self.advance(
                    Step::ReadingClock,
                    Action::ReadClock,
                ),
                Event::Device(DeviceReply::Failed { reason }) => self.advance(
                    Step::ReadingClock,
                    Action::ReadClock,
                ),
                other => self.abort_on(other),
            },
            Step::Replying => match event {
                Event::Device(DeviceReply::Done) => {
                    let line = self.pending_line.clone();
                    self.advance(Step::Logging, Action::PublishLog { line })
                },
                other => self.abort_on(other),
            },
            Step::Logging => match event {
                Event::Published { delivered } => self.advance(
                    Step::ReadingClock,
                    Action::ReadClock,
                ),
                other => self.abort_on(other),
            },
            Step::ReadingClock => match event {
                Event::Clock { now_ms } => {
                    if now_ms >= self.last_poll_ms && now_ms - self.last_poll_ms
                        >= POLL_INTERVAL_MS {
                        let transport_id = self.transport_id.clone();
                        self.advance(
                            Step::Polling,
                            Action::Device(DeviceCall::MediaStatus { transport_id }),
                        )
                    } else {
                        self.advance(Step::CheckingShutdown, Action::CheckShutdown)
                    }
                },
                other => self.abort_on(other),
            },
            Step::Polling => match event {
                Event::Device(DeviceReply::MediaEntries { entries }) => {
                    let status = media_status(&entries);
                    self.advance(Step::Reporting, Action::PublishStatus { status })
                },
                other => self.abort_on(other),
            },
            Step::Reporting => match event {
                Event::Published { delivered } => self.advance(Step::Stamping, Action::ReadClock),
                other => self.abort_on(other),
            },
            Step::Stamping => match event {
                Event::Clock { now_ms } => {
                    self.last_poll_ms = now_ms;
                    self.advance(Step::CheckingShutdown, Action::CheckShutdown)
                },
                other => self.abort_on(other),
            },
            Step::Releasing | Step::Stopped => self.finish(),
        }
    }
}

} // verus!
