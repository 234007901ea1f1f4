//! The device session manager.
//!
//! A [`Caster`] stands for one receiver device. Launching media on it yields
//! a [`Session`], the long-lived connection that keeps the link alive and
//! reports the playback status; every control command yields a [`Dispatch`]
//! with a short-lived connection of its own.

pub mod command;
pub mod command_laws;
pub mod device;
pub mod discovery;
pub mod error;
pub mod session;
pub mod session_laws;

use vstd::prelude::*;
use vstd::string::StringExecFns;
use crate::cast::command::{
    Directive, DirectiveView, Dispatch, DispatchView, Request, RequestView, initial_dispatch,
};
use crate::cast::device::{DeviceCall, DeviceCallView, PlayerCommand, Seconds};
use crate::cast::session::{
    Action, ActionView, Session, SessionConfig, SessionConfigView, initial_session,
    standard_config,
};

pub use crate::cast::device::MediaStatus;
pub use crate::cast::discovery::find_device_ips;
pub use crate::cast::error::CastError;

verus! {

/// What the consumer of a session may ask of it.
#[derive(Clone, Debug)]
pub enum CastEvent {
    /// Cast the media at this URL.
    Play(String),
    Pause,
    Stop,
    /// End the session.
    Kill,
}

/// What a session answers to a [`CastEvent`] that it could not honour.
#[derive(Clone, Copy, Debug, PartialEq, Eq, Structural)]
pub enum CastResponse {
    Error,
}

/// One receiver device, and the way in which it is addressed.
#[derive(Debug, PartialEq, Eq)]
pub struct Caster {
    device_addr: String,
    config: SessionConfig,
}

/// Mathematical value of a [`Caster`].
pub struct CasterView {
    /// Address of the device.
    pub device_addr: Seq<char>,
    pub config: SessionConfigView,
}

impl View for Caster {
    type V = CasterView;

    closed spec fn view(&self) -> CasterView {
        CasterView { device_addr: self.device_addr@, config: self.config@ }
    }
}

impl CasterView {
    /// The dispatch that carries `request` to this device, as it starts.
    pub open spec fn dispatch(self, request: RequestView) -> DispatchView {
        initial_dispatch(request, self.config.destination_id)
    }

    /// The call that opens a transport to this device.
    pub open spec fn open_transport(self) -> DeviceCallView {
        DeviceCallView::OpenTransport { address: self.device_addr, port: self.config.port }
    }
}

impl Caster {
    /// Begins to cast the media at `media_url` to the device at
    /// `device_addr`: returns the session, the first action that its driver
    /// has to perform, and the handle for commands. `now_ms` is the clock
    /// reading at the launch.
    pub fn launch_media(device_addr: &str, media_url: &str, config: SessionConfig, now_ms: u64) -> (launched: (
        Session,
        Action,
        Caster,
    ))
        ensures
            launched.0@ == initial_session(device_addr@, media_url@, config@, now_ms),
            launched.1@ == ActionView::Device(
                DeviceCallView::OpenTransport { address: device_addr@, port: config.port },
            ),
            launched.2@ == (CasterView { device_addr: device_addr@, config: config@ }),
    {
        let caster = Caster { device_addr: String::from_str(device_addr), config: config.duplicate() };
        let (session, action) = Session::launch(device_addr, media_url, config, now_ms);
        (session, action, caster)
    }

    /// Begins to cast the media at `media_url` to the device at `cast_addr`,
    /// addressed in the standard way.
    pub fn spawn(cast_addr: String, media_url: &str, now_ms: u64) -> (launched: (
        Session,
        Action,
        Caster,
    ))
        ensures
            launched.0@ == initial_session(cast_addr@, media_url@, standard_config(), now_ms),
            launched.1@ == ActionView::Device(
                DeviceCallView::OpenTransport { address: cast_addr@, port: 8009 },
            ),
            launched.2@ == (CasterView { device_addr: cast_addr@, config: standard_config() }),
    {
        Caster::launch_media(cast_addr.as_str(), media_url, SessionConfig::standard(), now_ms)
    }

    /// Address of the device.
    pub fn device_addr(&self) -> (address: &str)
        ensures
            address@ == self@.device_addr,
    {
        self.device_addr.as_str()
    }

    /// The call that opens a fresh transport to the device. A transport
    /// opened for a command has to be closed again after a short while: it
    /// is not kept alive.
    pub fn connect(&self) -> (call: DeviceCall)
        ensures
            call@ == self@.open_transport(),
    {
        DeviceCall::OpenTransport { address: self.device_addr.clone(), port: self.config.port }
    }

    /// Begins loading the media at `media_url` into the application that
    /// runs on the device.
    pub fn begin_playback(&self, media_url: &str) -> (started: (Dispatch, Directive))
        ensures
            started.0@ == self@.dispatch(
                RequestView::Load {
                    content_id: media_url@,
                    content_type: self@.config.content_type,
                },
            ),
            started.1@ == DirectiveView::Call(self@.open_transport()),
    {
        let request = Request::Load {
            content_id: String::from_str(media_url),
            content_type: self.config.content_type.clone(),
        };
        self.dispatch(request)
    }

    /// Begins resuming the playback if it is paused.
    pub fn resume(&self) -> (started: (Dispatch, Directive))
        ensures
            started.0@ == self@.dispatch(RequestView::Control(PlayerCommand::Resume)),
            started.1@ == DirectiveView::Call(self@.open_transport()),
    {
        self.change_media_state(PlayerCommand::Resume)
    }

    /// Begins pausing the playback if it is playing.
    pub fn pause(&self) -> (started: (Dispatch, Directive))
        ensures
            started.0@ == self@.dispatch(RequestView::Control(PlayerCommand::Pause)),
            started.1@ == DirectiveView::Call(self@.open_transport()),
    {
        self.change_media_state(PlayerCommand::Pause)
    }

    /// Begins stopping the playback; the device returns to its idle screen.
    pub fn stop(&self) -> (started: (Dispatch, Directive))
        ensures
            started.0@ == self@.dispatch(RequestView::Control(PlayerCommand::Stop)),
            started.1@ == DirectiveView::Call(self@.open_transport()),
    {
        self.change_media_state(PlayerCommand::Stop)
    }

    /// Begins seeking to `time`. The time is not looked at: whether the
    /// device accepts it is for the device to say.
    pub fn seek(&self, time: Seconds) -> (started: (Dispatch, Directive))
        ensures
            started.0@ == self@.dispatch(RequestView::Control(PlayerCommand::Seek(time))),
            started.1@ == DirectiveView::Call(self@.open_transport()),
    {
        self.change_media_state(PlayerCommand::Seek(time))
    }

    /// Begins changing the state of the playback as `state` says.
    pub fn change_media_state(&self, state: PlayerCommand) -> (started: (Dispatch, Directive))
        ensures
            started.0@ == self@.dispatch(RequestView::Control(state)),
            started.1@ == DirectiveView::Call(self@.open_transport()),
    {
        self.dispatch(Request::Control(state))
    }

    fn dispatch(&self, request: Request) -> (started: (Dispatch, Directive))
        ensures
            started.0@ == self@.dispatch(request@),
            started.1@ == DirectiveView::Call(self@.open_transport()),
    {
        Dispatch::begin(
            request,
            self.device_addr.as_str(),
            self.config.port,
            self.config.destination_id.as_str(),
        )
    }
}

} // verus!
