//! Plain values exchanged with the receiver device: what the session asks of
//! the protocol layer and what the protocol layer answers.

use vstd::prelude::*;

verus! {

/// A time in seconds, kept as the bit pattern of an IEEE-754 double.
///
/// The session never interprets the number: it is handed to the device, or
/// taken from it, exactly as it is.
#[derive(Clone, Copy, Debug, PartialEq, Eq, Structural)]
pub struct Seconds {
    pub bits: u64,
}

/// What the player of the receiver application is doing.
#[derive(Clone, Copy, Debug, PartialEq, Eq, Structural)]
pub enum PlayerState {
    Idle,
    Playing,
    Buffering,
    Paused,
}

/// Snapshot of the playback of one media session.
#[derive(Clone, Copy, Debug, PartialEq, Eq)]
pub struct StatusEntry {
    pub media_session_id: i32,
    pub player_state: PlayerState,
    pub position: Option<Seconds>,
    pub duration: Option<Seconds>,
}

/// Playback status as the consumer of a session sees it.
#[derive(Clone, Copy, Debug, PartialEq, Eq)]
pub enum MediaStatus {
    /// Media is loaded; the entry is the device's first status entry.
    Active(StatusEntry),
    /// No media is loaded or playing.
    Inactive,
}

/// A user-issued control command.
#[derive(Clone, Copy, Debug, PartialEq, Eq)]
pub enum PlayerCommand {
    Resume,
    Pause,
    Stop,
    Seek(Seconds),
}

/// A receiver application running on the device.
#[derive(Debug, PartialEq, Eq)]
pub struct Application {
    pub transport_id: String,
    pub session_id: String,
}

/// Mathematical value of an [`Application`].
pub struct ApplicationView {
    pub transport_id: Seq<char>,
    pub session_id: Seq<char>,
}

impl View for Application {
    type V = ApplicationView;

    open spec fn view(&self) -> ApplicationView {
        ApplicationView { transport_id: self.transport_id@, session_id: self.session_id@ }
    }
}

/// A heartbeat message.
#[derive(Clone, Copy, Debug, PartialEq, Eq, Structural)]
pub enum Heartbeat {
    Ping,
    Pong,
    /// Any other message on the heartbeat channel.
    Other,
}

/// The channel an inbound message arrived on.
#[derive(Clone, Copy, Debug, PartialEq, Eq, Structural)]
pub enum MessageKind {
    Connection,
    Heartbeat(Heartbeat),
    Media,
    Receiver,
    /// A message that no channel could parse.
    Raw,
}

/// One inbound protocol message: its channel and a rendering of its content.
#[derive(Debug, PartialEq, Eq)]
pub struct DeviceMessage {
    pub kind: MessageKind,
    pub detail: String,
}

/// Mathematical value of a [`DeviceMessage`].
pub struct DeviceMessageView {
    pub kind: MessageKind,
    pub detail: Seq<char>,
}

impl View for DeviceMessage {
    type V = DeviceMessageView;

    open spec fn view(&self) -> DeviceMessageView {
        DeviceMessageView { kind: self.kind, detail: self.detail@ }
    }
}

/// One operation on a transport to the device.
#[derive(Debug, PartialEq, Eq)]
pub enum DeviceCall {
    /// Open a transport to `address` and perform the protocol handshake.
    OpenTransport { address: String, port: u16 },
    /// Open the virtual connection to `destination`.
    ConnectChannel { destination: String },
    /// Close the virtual connection to `destination`.
    DisconnectChannel { destination: String },
    /// Send a heartbeat ping.
    Ping,
    /// Send a heartbeat pong.
    Pong,
    /// Launch the default media receiver application.
    LaunchApp,
    /// Ask for the list of running applications.
    ReceiverStatus,
    /// Ask for the status of every media session of an application.
    MediaStatus { transport_id: String },
    /// Load buffered media, without duration or metadata.
    Load { transport_id: String, session_id: String, content_id: String, content_type: String },
    Play { transport_id: String, media_session_id: i32 },
    Pause { transport_id: String, media_session_id: i32 },
    Stop { transport_id: String, media_session_id: i32 },
    /// Seek to `time`, leaving the resume state as it is.
    Seek { transport_id: String, media_session_id: i32, time: Seconds },
    /// Attempt to receive one inbound message, waiting for a short time at most.
    Receive,
    /// Close the transport.
    Release,
}

/// Mathematical value of a [`DeviceCall`].
pub enum DeviceCallView {
    OpenTransport { address: Seq<char>, port: u16 },
    ConnectChannel { destination: Seq<char> },
    DisconnectChannel { destination: Seq<char> },
    Ping,
    Pong,
    LaunchApp,
    ReceiverStatus,
    MediaStatus { transport_id: Seq<char> },
    Load {
        transport_id: Seq<char>,
        session_id: Seq<char>,
        content_id: Seq<char>,
        content_type: Seq<char>,
    },
    Play { transport_id: Seq<char>, media_session_id: i32 },
    Pause { transport_id: Seq<char>, media_session_id: i32 },
    Stop { transport_id: Seq<char>, media_session_id: i32 },
    Seek { transport_id: Seq<char>, media_session_id: i32, time: Seconds },
    Receive,
    Release,
}

impl View for DeviceCall {
    type V = DeviceCallView;

    open spec fn view(&self) -> DeviceCallView {
        match self {
            DeviceCall::OpenTransport { address, port } => DeviceCallView::OpenTransport {
                address: address@,
                port: *port,
            },
            DeviceCall::ConnectChannel { destination } => DeviceCallView::ConnectChannel {
                destination: destination@,
            },
            DeviceCall::DisconnectChannel { destination } => DeviceCallView::DisconnectChannel {
                destination: destination@,
            },
            DeviceCall::Ping => DeviceCallView::Ping,
            DeviceCall::Pong => DeviceCallView::Pong,
            DeviceCall::LaunchApp => DeviceCallView::LaunchApp,
            DeviceCall::ReceiverStatus => DeviceCallView::ReceiverStatus,
            DeviceCall::MediaStatus { transport_id } => DeviceCallView::MediaStatus {
                transport_id: transport_id@,
            },
            DeviceCall::Load { transport_id, session_id, content_id, content_type } => {
                DeviceCallView::Load {
                    transport_id: transport_id@,
                    session_id: session_id@,
                    content_id: content_id@,
                    content_type: content_type@,
                }
            },
            DeviceCall::Play { transport_id, media_session_id } => DeviceCallView::Play {
                transport_id: transport_id@,
                media_session_id: *media_session_id,
            },
            DeviceCall::Pause { transport_id, media_session_id } => DeviceCallView::Pause {
                transport_id: transport_id@,
                media_session_id: *media_session_id,
            },
            DeviceCall::Stop { transport_id, media_session_id } => DeviceCallView::Stop {
                transport_id: transport_id@,
                media_session_id: *media_session_id,
            },
            DeviceCall::Seek { transport_id, media_session_id, time } => DeviceCallView::Seek {
                transport_id: transport_id@,
                media_session_id: *media_session_id,
                time: *time,
            },
            DeviceCall::Receive => DeviceCallView::Receive,
            DeviceCall::Release => DeviceCallView::Release,
        }
    }
}

/// What the protocol layer hands back after a [`DeviceCall`].
#[derive(Debug, PartialEq, Eq)]
pub enum DeviceReply {
    /// The operation succeeded and returned nothing the session reads.
    Done,
    /// The operation failed; `reason` is the protocol layer's description.
    Failed { reason: String },
    /// The application was launched.
    Launched { app: Application },
    /// The applications running on the device, in the device's order.
    Applications { apps: Vec<Application> },
    /// The status entries of an application's media sessions, in the
    /// device's order.
    MediaEntries { entries: Vec<StatusEntry> },
    /// The outcome of a receive: a message, or none within the wait.
    Inbound { message: Option<DeviceMessage> },
}

/// Mathematical value of a [`DeviceReply`].
pub enum DeviceReplyView {
    Done,
    Failed { reason: Seq<char> },
    Launched { app: ApplicationView },
    Applications { apps: Seq<ApplicationView> },
    MediaEntries { entries: Seq<StatusEntry> },
    Inbound { message: Option<DeviceMessageView> },
}

impl View for DeviceReply {
    type V = DeviceReplyView;

    open spec fn view(&self) -> DeviceReplyView {
        match self {
            DeviceReply::Done => DeviceReplyView::Done,
            DeviceReply::Failed { reason } => DeviceReplyView::Failed { reason: reason@ },
            DeviceReply::Launched { app } => DeviceReplyView::Launched { app: app@ },
            DeviceReply::Applications { apps } => DeviceReplyView::Applications {
                apps: apps@.map_values(|app: Application| app@),
            },
            DeviceReply::MediaEntries { entries } => DeviceReplyView::MediaEntries {
                entries: entries@,
            },
            DeviceReply::Inbound { message } => DeviceReplyView::Inbound {
                message: match message {
                    Some(message) => Some(message@),
                    None => None,
                },
            },
        }
    }
}

/// The status a poll reports: the first entry, if the device returned any.
pub open spec fn status_of(entries: Seq<StatusEntry>) -> MediaStatus {
    if entries.len() > 0 {
        MediaStatus::Active(entries[0])
    } else {
        MediaStatus::Inactive
    }
}

/// The status to publish for the entries that a status poll returned.
pub fn media_status(entries: &Vec<StatusEntry>) -> (status: MediaStatus)
    ensures
        status == status_of(entries@),
{
    if entries.len() > 0 {
        MediaStatus::Active(entries[0])
    } else {
        MediaStatus::Inactive
    }
}

} // verus!
