//! Carrying out one control command, as a state machine.
//!
//! Every command runs on a transport of its own, apart from the one that the
//! session polls on: the device is asked for its running application and for
//! the media session of that application, one playback call is made, and the
//! control destination is disconnected again, however the command ended. As
//! with the session, the machine names the next operation as a [`Directive`]
//! and takes its outcome as a [`DeviceReply`].

use vstd::prelude::*;
use vstd::string::StringExecFns;
use crate::cast::device::{
    DeviceCall, DeviceCallView, DeviceReply, DeviceReplyView, PlayerCommand, StatusEntry,
};
use crate::cast::error::{CastError, CastErrorView, outcome_view};

verus! {

/// What a dispatch is to achieve on the device.
#[derive(Debug, PartialEq, Eq)]
pub enum Request {
    /// Change the state of the playback.
    Control(PlayerCommand),
    /// Load media into the running application.
    Load { content_id: String, content_type: String },
}

/// Mathematical value of a [`Request`].
pub enum RequestView {
    Control(PlayerCommand),
    Load { content_id: Seq<char>, content_type: Seq<char> },
}

impl View for Request {
    type V = RequestView;

    open spec fn view(&self) -> RequestView {
        match self {
            Request::Control(command) => RequestView::Control(*command),
            Request::Load { content_id, content_type } => RequestView::Load {
                content_id: content_id@,
                content_type: content_type@,
            },
        }
    }
}

/// The operation a dispatch is waiting for.
#[derive(Clone, Copy, Debug, PartialEq, Eq, Structural)]
pub enum Stage {
    OpeningTransport,
    ConnectingControl,
    ReadingApplications,
    ConnectingApp,
    ReadingMedia,
    Calling,
    Disconnecting,
    Releasing,
    Complete,
}

/// What the driver of a dispatch has to do next.
#[derive(Debug, PartialEq, Eq)]
pub enum Directive {
    /// Perform the call on the dispatch's own transport.
    Call(DeviceCall),
    /// The command is over, with this result.
    Complete { result: Result<(), CastError> },
}

/// Mathematical value of a [`Directive`].
pub enum DirectiveView {
    Call(DeviceCallView),
    Complete { result: Result<(), CastErrorView> },
}

impl View for Directive {
    type V = DirectiveView;

    open spec fn view(&self) -> DirectiveView {
        match self {
            Directive::Call(call) => DirectiveView::Call(call@),
            Directive::Complete { result } => DirectiveView::Complete {
                result: outcome_view(*result),
            },
        }
    }
}

/// One command on its way to the device.
#[derive(Debug, PartialEq, Eq)]
pub struct Dispatch {
    stage: Stage,
    request: Request,
    destination_id: String,
    transport_id: String,
    session_id: String,
    failure: Option<CastError>,
}

/// Mathematical value of a [`Dispatch`].
pub struct DispatchView {
    /// The operation the dispatch is waiting for.
    pub stage: Stage,
    pub request: RequestView,
    /// Identifier of the device's default control destination.
    pub destination_id: Seq<char>,
    /// Transport identifier of the device's application; empty until known.
    pub transport_id: Seq<char>,
    /// Session identifier of the device's application; empty until known.
    pub session_id: Seq<char>,
    /// Why the command fails, if it does.
    pub failure: Option<CastErrorView>,
}

impl View for Dispatch {
    type V = DispatchView;

    closed spec fn view(&self) -> DispatchView {
        DispatchView {
            stage: self.stage,
            request: self.request@,
            destination_id: self.destination_id@,
            transport_id: self.transport_id@,
            session_id: self.session_id@,
            failure: match self.failure {
                Some(error) => Some(error@),
                None => None,
            },
        }
    }
}

/// A stage and the directive that led to it.
pub struct Progress {
    pub state: DispatchView,
    pub directive: DirectiveView,
}

/// The dispatch as it starts.
pub open spec fn initial_dispatch(request: RequestView, destination_id: Seq<char>) -> DispatchView {
    DispatchView {
        stage: Stage::OpeningTransport,
        request,
        destination_id,
        transport_id: Seq::empty(),
        session_id: Seq::empty(),
        failure: None,
    }
}

/// The protocol call that a command maps to.
pub open spec fn playback_call(
    command: PlayerCommand,
    transport_id: Seq<char>,
    media_session_id: i32,
) -> DeviceCallView {
    match command {
        PlayerCommand::Resume => DeviceCallView::Play { transport_id, media_session_id },
        PlayerCommand::Pause => DeviceCallView::Pause { transport_id, media_session_id },
        PlayerCommand::Stop => DeviceCallView::Stop { transport_id, media_session_id },
        PlayerCommand::Seek(time) => DeviceCallView::Seek { transport_id, media_session_id, time },
    }
}

impl DispatchView {
    /// The result the command ends with.
    pub open spec fn result(self) -> Result<(), CastErrorView> {
        match self.failure {
            Some(error) => Err(error),
            None => Ok(()),
        }
    }

    /// Moves on to `stage`, asking the device for `call`.
    pub open spec fn ask(self, stage: Stage, call: DeviceCallView) -> Progress {
        Progress { state: DispatchView { stage, ..self }, directive: DirectiveView::Call(call) }
    }

    /// Winds the command down: the control destination is disconnected
    /// before anything is reported.
    pub open spec fn close(self, failure: Option<CastErrorView>) -> Progress {
        Progress {
            state: DispatchView { stage: Stage::Disconnecting, failure, ..self },
            directive: DirectiveView::Call(
                DeviceCallView::DisconnectChannel { destination: self.destination_id },
            ),
        }
    }

    /// Winds the command down after a failed call, or after a reply that was
    /// not expected.
    pub open spec fn close_on(self, reply: DeviceReplyView) -> Progress {
        match reply {
            DeviceReplyView::Failed { reason } => self.close(
                Some(CastErrorView::ProtocolError(reason)),
            ),
            _ => self.close(Some(CastErrorView::CasterError("unexpected reply"@))),
        }
    }

    /// Ends a command whose transport never opened.
    pub open spec fn fail_unopened(self, reply: DeviceReplyView) -> Progress {
        let error = match reply {
            DeviceReplyView::Failed { reason } => CastErrorView::ProtocolError(reason),
            _ => CastErrorView::CasterError("unexpected reply"@),
        };
        Progress {
            state: DispatchView { stage: Stage::Complete, failure: Some(error), ..self },
            directive: DirectiveView::Complete { result: Err(error) },
        }
    }

    /// The call made once the application is connected.
    pub open spec fn after_connect(self) -> Progress {
        match self.request {
            RequestView::Control(_) => self.ask(
                Stage::ReadingMedia,
                DeviceCallView::MediaStatus { transport_id: self.transport_id },
            ),
            RequestView::Load { content_id, content_type } => self.ask(
                Stage::Calling,
                DeviceCallView::Load {
                    transport_id: self.transport_id,
                    session_id: self.session_id,
                    content_id,
                    content_type,
                },
            ),
        }
    }

    /// The call made once the media status is known.
    pub open spec fn after_media(self, entries: Seq<StatusEntry>) -> Progress {
        match self.request {
            RequestView::Control(command) => {
                if entries.len() == 0 {
                    self.close(Some(CastErrorView::NoActiveMedia))
                } else {
                    self.ask(
                        Stage::Calling,
                        playback_call(command, self.transport_id, entries[0].media_session_id),
                    )
                }
            },
            RequestView::Load { .. } => self.close(
                Some(CastErrorView::CasterError("unexpected reply"@)),
            ),
        }
    }

    /// The state after `reply`, and what the driver has to do next.
    pub open spec fn next(self, reply: DeviceReplyView) -> Progress {
        match self.stage {
            Stage::OpeningTransport => match reply {
                DeviceReplyView::Done => self.ask(
                    Stage::ConnectingControl,
                    DeviceCallView::ConnectChannel { destination: self.destination_id },
                ),
                _ => self.fail_unopened(reply),
            },
            Stage::ConnectingControl => match reply {
                DeviceReplyView::Done => self.ask(
                    Stage::ReadingApplications,
                    DeviceCallView::ReceiverStatus,
                ),
                _ => self.close_on(reply),
            },
            Stage::ReadingApplications => match reply {
                DeviceReplyView::Applications { apps } => {
                    if apps.len() == 0 {
                        self.close(Some(CastErrorView::NoActiveApplication))
                    } else {
                        Progress {
                            state: DispatchView {
                                stage: Stage::ConnectingApp,
                                transport_id: apps[0].transport_id,
                                session_id: apps[0].session_id,
                                ..self
                            },
                            directive: DirectiveView::Call(
                                DeviceCallView::ConnectChannel {
                                    destination: apps[0].transport_id,
                                },
                            ),
                        }
                    }
                },
                _ => self.close_on(reply),
            },
            Stage::ConnectingApp => match reply {
                DeviceReplyView::Done => self.after_connect(),
                _ => self.close_on(reply),
            },
            Stage::ReadingMedia => match reply {
                DeviceReplyView::MediaEntries { entries } => self.after_media(entries),
                _ => self.close_on(reply),
            },
            Stage::Calling => match reply {
                DeviceReplyView::Done => self.close(None),
                _ => self.close_on(reply),
            },
            Stage::Disconnecting => self.ask(Stage::Releasing, DeviceCallView::Release),
            Stage::Releasing | Stage::Complete => Progress {
                state: DispatchView { stage: Stage::Complete, ..self },
                directive: DirectiveView::Complete { result: self.result() },
            },
        }
    }
}

impl Dispatch {
    /// Starts a dispatch of `request` to the device at `address`. The
    /// directive returned is the first one to carry out.
    pub fn begin(request: Request, address: &str, port: u16, destination_id: &str) -> (started: (
        Dispatch,
        Directive,
    ))
        ensures
            started.0@ == initial_dispatch(request@, destination_id@),
            started.1@ == DirectiveView::Call(
                DeviceCallView::OpenTransport { address: address@, port },
            ),
    {
        let dispatch = Dispatch {
            stage: Stage::OpeningTransport,
            request,
            destination_id: String::from_str(destination_id),
            transport_id: String::new(),
            session_id: String::new(),
            failure: None,
        };
        let directive = Directive::Call(
            DeviceCall::OpenTransport { address: String::from_str(address), port },
        );
        (dispatch, directive)
    }

    /// The operation the dispatch is waiting for.
    pub fn stage(&self) -> (stage: Stage)
        ensures
            stage == self@.stage,
    {
        self.stage
    }

    /// The result the command ends with, as far as it is known by now.
    pub fn result(&self) -> (result: Result<(), CastError>)
        ensures
            outcome_view(result) == self@.result(),
    {
        match &self.failure {
            Some(error) => Err(error.duplicate()),
            None => Ok(()),
        }
    }

    fn ask(&mut self, stage: Stage, call: DeviceCall) -> (next: Directive)
        ensures
            final(self)@ == old(self)@.ask(stage, call@).state,
            next@ == old(self)@.ask(stage, call@).directive,
    {
        self.stage = stage;
        Directive::Call(call)
    }

    fn close(&mut self, failure: Option<CastError>) -> (next: Directive)
        ensures
            final(self)@ == old(self)@.close(
                match failure {
                    Some(error) => Some(error@),
                    None => None,
                },
            ).state,
            next@ == old(self)@.close(
                match failure {
                    Some(error) => Some(error@),
                    None => None,
                },
            ).directive,
    {
        self.stage = Stage::Disconnecting;
        self.failure = failure;
        Directive::Call(
            DeviceCall::DisconnectChannel { destination: self.destination_id.clone() },
        )
    }

    fn close_on(&mut self, reply: DeviceReply) -> (next: Directive)
        ensures
            final(self)@ == old(self)@.close_on(reply@).state,
            next@ == old(self)@.close_on(reply@).directive,
    {
        match reply {
            DeviceReply::Failed { reason } => self.close(Some(CastError::ProtocolError(reason))),
            _ => self.close(Some(CastError::CasterError(String::from_str("unexpected reply")))),
        }
    }

    fn fail_unopened(&mut self, reply: DeviceReply) -> (next: Directive)
        ensures
            final(self)@ == old(self)@.fail_unopened(reply@).state,
            next@ == old(self)@.fail_unopened(reply@).directive,
    {
        let error = match reply {
            DeviceReply::Failed { reason } => CastError::ProtocolError(reason),
            _ => CastError::CasterError(String::from_str("unexpected reply")),
        };
        let reported = error.duplicate();
        self.stage = Stage::Complete;
        self.failure = Some(error);
        Directive::Complete { result: Err(reported) }
    }

    fn after_connect(&mut self) -> (next: Directive)
        ensures
            final(self)@ == old(self)@.after_connect().state,
            next@ == old(self)@.after_connect().directive,
    {
        let call = match &self.request {
            Request::Control(_) => DeviceCall::MediaStatus {
                transport_id: self.transport_id.clone(),
            },
            Request::Load { content_id, content_type } => DeviceCall::Load {
                transport_id: self.transport_id.clone(),
                session_id: self.session_id.clone(),
                content_id: content_id.clone(),
                content_type: content_type.clone(),
            },
        };
        let stage = match &self.request {
            Request::Control(_) => Stage::ReadingMedia,
            Request::Load { .. } => Stage::Calling,
        };
        self.ask(stage, call)
    }

    fn after_media(&mut self, entries: Vec<StatusEntry>) -> (next: Directive)
        ensures
            final(self)@ == old(self)@.after_media(entries@).state,
            next@ == old(self)@.after_media(entries@).directive,
    {
        let command = match &self.request {
            Request::Control(command) => Some(*command),
            Request::Load { .. } => None,
        };
        match command {
            Some(command) => {
                if entries.len() == 0 {
                    self.close(Some(CastError::NoActiveMedia))
                } else {
                    let media_session_id = entries[0].media_session_id;
                    let transport_id = self.transport_id.clone();
                    let call = match command {
                        PlayerCommand::Resume => DeviceCall::Play { transport_id, media_session_id },
                        PlayerCommand::Pause => DeviceCall::Pause { transport_id, media_session_id },
                        PlayerCommand::Stop => DeviceCall::Stop { transport_id, media_session_id },
                        PlayerCommand::Seek(time) => DeviceCall::Seek {
                            transport_id,
                            media_session_id,
                            time,
                        },
                    };
                    self.ask(Stage::Calling, call)
                }
            },
            None => self.close(
                Some(CastError::CasterError(String::from_str("unexpected reply"))),
            ),
        }
    }

    /// Takes the outcome of the call that was asked for last and names what
    /// to do next.
    pub fn handle(&mut self, reply: DeviceReply) -> (directive: Directive)
        ensures
            final(self)@ == old(self)@.next(reply@).state,
            directive@ == old(self)@.next(reply@).directive,
    {
        match self.stage {
            Stage::OpeningTransport => match reply {
                DeviceReply::Done => {
                    let destination = self.destination_id.clone();
                    self.ask(Stage::ConnectingControl, DeviceCall::ConnectChannel { destination })
                },
                other => self.fail_unopened(other),
            },
            Stage::ConnectingControl => match reply {
                DeviceReply::Done => self.ask(Stage::ReadingApplications, DeviceCall::ReceiverStatus),
                other => self.close_on(other),
            },
            Stage::ReadingApplications => match reply {
                DeviceReply::Applications { apps } => {
                    if apps.len() == 0 {
                        self.close(Some(CastError::NoActiveApplication))
                    } else {
                        let destination = apps[0].transport_id.clone();
                        self.transport_id = apps[0].transport_id.clone();
                        self.session_id = apps[0].session_id.clone();
                        self.ask(Stage::ConnectingApp, DeviceCall::ConnectChannel { destination })
                    }
                },
                other => self.close_on(other),
            },
            Stage::ConnectingApp => match reply {
                DeviceReply::Done => self.after_connect(),
                other => self.close_on(other),
            },
            Stage::ReadingMedia => match reply {
                DeviceReply::MediaEntries { entries } => self.after_media(entries),
                other => self.close_on(other),
            },
            Stage::Calling => match reply {
                DeviceReply::Done => self.close(None),
                other => self.close_on(other),
            },
            Stage::Disconnecting => self.ask(Stage::Releasing, DeviceCall::Release),
            Stage::Releasing | Stage::Complete => {
                self.stage = Stage::Complete;
                Directive::Complete { result: self.result() }
            },
        }
    }
}

} // verus!
