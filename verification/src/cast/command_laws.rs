//! What holds of every command, and of commands beside a session.
//!
//! A dispatch is looked at together with the replies that its driver hands
//! it, in order. The laws below speak of the directive that answers each
//! reply.

use vstd::prelude::*;
use crate::cast::command::{
    DirectiveView, DispatchView, RequestView, Stage, initial_dispatch, playback_call,
};
use crate::cast::device::{
    ApplicationView, DeviceCallView, DeviceReplyView, MediaStatus, PlayerCommand, StatusEntry,
    status_of,
};
use crate::cast::error::CastErrorView;
use crate::cast::session::{EventView, SessionView};
use crate::cast::session_laws::run;

verus! {

/// The state that the dispatch `start` is in after `replies`.
pub open spec fn dispatch_run(start: DispatchView, replies: Seq<DeviceReplyView>) -> DispatchView
    decreases replies.len(),
{
    if replies.len() == 0 {
        start
    } else {
        dispatch_run(start, replies.drop_last()).next(replies.last()).state
    }
}

/// The state in which reply number `i` of a dispatch arrives.
pub open spec fn dispatch_at(start: DispatchView, replies: Seq<DeviceReplyView>, i: int)
    -> DispatchView {
    dispatch_run(start, replies.take(i))
}

/// The directive that answers reply number `i` of a dispatch.
pub open spec fn directive_at(start: DispatchView, replies: Seq<DeviceReplyView>, i: int)
    -> DirectiveView {
    dispatch_at(start, replies, i).next(replies[i]).directive
}

/// The directive is one of the calls that change the playback.
pub open spec fn is_playback_call(directive: DirectiveView) -> bool {
    match directive {
        DirectiveView::Call(DeviceCallView::Play { .. }) => true,
        DirectiveView::Call(DeviceCallView::Pause { .. }) => true,
        DirectiveView::Call(DeviceCallView::Stop { .. }) => true,
        DirectiveView::Call(DeviceCallView::Seek { .. }) => true,
        _ => false,
    }
}

/// The replies of a device that is reachable and runs an application whose
/// media status is `entries`, up to the answer to the status query.
pub open spec fn reaches_media_status(
    replies: Seq<DeviceReplyView>,
    apps: Seq<ApplicationView>,
    entries: Seq<StatusEntry>,
) -> bool {
    &&& replies.len() >= 5
    &&& replies[0] == DeviceReplyView::Done
    &&& replies[1] == DeviceReplyView::Done
    &&& replies[2] == (DeviceReplyView::Applications { apps })
    &&& apps.len() > 0
    &&& replies[3] == DeviceReplyView::Done
    &&& replies[4] == (DeviceReplyView::MediaEntries { entries })
}

/// Each state of a dispatch follows from the one before by the reply between them.
pub proof fn lemma_dispatch_unfolds(start: DispatchView, replies: Seq<DeviceReplyView>, i: int)
    requires
        0 <= i < replies.len(),
    ensures
        dispatch_at(start, replies, i + 1) == dispatch_at(start, replies, i).next(
            replies[i],
        ).state,
{
    let prefix = replies.take(i + 1);
    assert(prefix.drop_last() =~= replies.take(i));
    assert(prefix.last() == replies[i]);
}

/// A command maps to exactly one playback call, with the identifier of the
/// media session that the device reported first.
pub proof fn law_command_maps_to_one_call(
    command: PlayerCommand,
    destination_id: Seq<char>,
    replies: Seq<DeviceReplyView>,
    apps: Seq<ApplicationView>,
    entries: Seq<StatusEntry>,
    k: int,
)
    requires
        reaches_media_status(replies, apps, entries),
        entries.len() > 0,
        0 <= k < replies.len(),
    ensures
        is_playback_call(
            directive_at(initial_dispatch(RequestView::Control(command), destination_id), replies, k),
        ) <==> k == 4,
        directive_at(initial_dispatch(RequestView::Control(command), destination_id), replies, 4)
            == DirectiveView::Call(
            playback_call(command, apps[0].transport_id, entries[0].media_session_id),
        ),
{
    let start = initial_dispatch(RequestView::Control(command), destination_id);
    lemma_dispatch_prefix(start, replies, apps, entries);
    if k > 4 {
        lemma_dispatch_winds_down(start, replies, 5, k);
    }
}

proof fn lemma_dispatch_prefix(
    start: DispatchView,
    replies: Seq<DeviceReplyView>,
    apps: Seq<ApplicationView>,
    entries: Seq<StatusEntry>,
)
    requires
        reaches_media_status(replies, apps, entries),
        start.stage == Stage::OpeningTransport,
        start.request is Control,
    ensures
        dispatch_at(start, replies, 0) == start,
        dispatch_at(start, replies, 1).stage == Stage::ConnectingControl,
        dispatch_at(start, replies, 2).stage == Stage::ReadingApplications,
        dispatch_at(start, replies, 3).stage == Stage::ConnectingApp,
        dispatch_at(start, replies, 4).stage == Stage::ReadingMedia,
        dispatch_at(start, replies, 4).request == start.request,
        dispatch_at(start, replies, 4).transport_id == apps[0].transport_id,
        dispatch_at(start, replies, 4).destination_id == start.destination_id,
        dispatch_at(start, replies, 5) == dispatch_at(start, replies, 4).next(replies[4]).state,
{
    assert(replies.take(0) =~= Seq::<DeviceReplyView>::empty());
    lemma_dispatch_unfolds(start, replies, 0);
    lemma_dispatch_unfolds(start, replies, 1);
    lemma_dispatch_unfolds(start, replies, 2);
    lemma_dispatch_unfolds(start, replies, 3);
    lemma_dispatch_unfolds(start, replies, 4);
}

/// How far a dispatch has wound down: nothing before the playback call has
/// been answered, then one more with each stage after it.
spec fn wind_down(stage: Stage) -> int {
    match stage {
        Stage::Calling => 1,
        Stage::Disconnecting => 2,
        Stage::Releasing => 3,
        Stage::Complete => 4,
        _ => 0,
    }
}

proof fn lemma_dispatch_winds_down(
    start: DispatchView,
    replies: Seq<DeviceReplyView>,
    from: int,
    k: int,
)
    requires
        0 <= from <= k < replies.len(),
        wind_down(dispatch_at(start, replies, from).stage) >= 1,
    ensures
        wind_down(dispatch_at(start, replies, k).stage) >= wind_down(
            dispatch_at(start, replies, from).stage,
        ),
        !is_playback_call(directive_at(start, replies, k)),
        wind_down(dispatch_at(start, replies, from).stage) >= 2 ==> dispatch_at(
            start,
            replies,
            k,
        ).failure == dispatch_at(start, replies, from).failure,
    decreases k,
{
    if k > from {
        lemma_dispatch_winds_down(start, replies, from, k - 1);
        lemma_dispatch_unfolds(start, replies, k - 1);
    }
}

/// A command issued while no media is loaded is refused: whatever the
/// command, no playback call is made, the control destination is
/// disconnected and the transport released, and the command ends with
/// `NoActiveMedia`. This holds of each command of a sequence of them.
pub proof fn law_inactive_media_refuses_every_command(
    commands: Seq<PlayerCommand>,
    n: int,
    destination_id: Seq<char>,
    replies: Seq<DeviceReplyView>,
    apps: Seq<ApplicationView>,
    entries: Seq<StatusEntry>,
    k: int,
)
    requires
        0 <= n < commands.len(),
        reaches_media_status(replies, apps, entries),
        status_of(entries) == MediaStatus::Inactive,
        0 <= k < replies.len(),
    ensures
        ({
            let start = initial_dispatch(RequestView::Control(commands[n]), destination_id);
            &&& !is_playback_call(directive_at(start, replies, k))
            &&& k == 4 ==> directive_at(start, replies, k) == DirectiveView::Call(
                DeviceCallView::DisconnectChannel { destination: destination_id },
            )
            &&& k == 5 ==> directive_at(start, replies, k) == DirectiveView::Call(
                DeviceCallView::Release,
            )
            &&& k >= 6 ==> directive_at(start, replies, k) == (DirectiveView::Complete {
                result: Err(CastErrorView::NoActiveMedia),
            })
        }),
{
    let start = initial_dispatch(RequestView::Control(commands[n]), destination_id);
    lemma_dispatch_prefix(start, replies, apps, entries);
    if k >= 5 {
        lemma_dispatch_winds_down(start, replies, 5, k);
        if k >= 6 {
            lemma_dispatch_unfolds(start, replies, 5);
            lemma_dispatch_winds_down(start, replies, 6, k);
        }
    }
}

/// The directive disconnects the control destination `destination_id`.
pub open spec fn is_disconnect(directive: DirectiveView, destination_id: Seq<char>) -> bool {
    directive == DirectiveView::Call(
        DeviceCallView::DisconnectChannel { destination: destination_id },
    )
}

proof fn lemma_disconnect_comes_first(
    start: DispatchView,
    replies: Seq<DeviceReplyView>,
    k: int,
)
    requires
        start.stage == Stage::OpeningTransport,
        0 < replies.len(),
        replies[0] == DeviceReplyView::Done,
        0 <= k <= replies.len(),
    ensures
        dispatch_at(start, replies, k).destination_id == start.destination_id,
        dispatch_at(start, replies, k).stage == Stage::OpeningTransport <==> k == 0,
        dispatch_at(start, replies, k).stage == Stage::Disconnecting ==> k >= 1 && is_disconnect(
            directive_at(start, replies, k - 1),
            start.destination_id,
        ),
        dispatch_at(start, replies, k).stage == Stage::Releasing || dispatch_at(
            start,
            replies,
            k,
        ).stage == Stage::Complete ==> exists|m: int|
            0 <= m < k && is_disconnect(
                #[trigger] directive_at(start, replies, m),
                start.destination_id,
            ),
    decreases k,
{
    if k == 0 {
        assert(replies.take(0) =~= Seq::<DeviceReplyView>::empty());
    } else {
        lemma_disconnect_comes_first(start, replies, k - 1);
        lemma_dispatch_unfolds(start, replies, k - 1);
        let before = dispatch_at(start, replies, k - 1);
        let after = dispatch_at(start, replies, k);
        if after.stage == Stage::Releasing || after.stage == Stage::Complete {
            if before.stage == Stage::Disconnecting {
                assert(is_disconnect(directive_at(start, replies, k - 2), start.destination_id));
            } else {
                let m = choose|m: int|
                    0 <= m < k - 1 && is_disconnect(
                        #[trigger] directive_at(start, replies, m),
                        start.destination_id,
                    );
                assert(is_disconnect(directive_at(start, replies, m), start.destination_id));
            }
        }
    }
}

/// A command disconnects before it ends, however it ends: once its
/// transport is open, the report that the command is over comes only after
/// the control destination has been disconnected.
pub proof fn law_every_command_disconnects(
    request: RequestView,
    destination_id: Seq<char>,
    replies: Seq<DeviceReplyView>,
    k: int,
)
    requires
        0 <= k < replies.len(),
        replies[0] == DeviceReplyView::Done,
        directive_at(initial_dispatch(request, destination_id), replies, k) is Complete,
    ensures
        exists|m: int|
            0 <= m < k && is_disconnect(
                #[trigger] directive_at(initial_dispatch(request, destination_id), replies, m),
                destination_id,
            ),
{
    lemma_disconnect_comes_first(initial_dispatch(request, destination_id), replies, k);
}

/// What arrives at a session and at the command that runs beside it.
pub enum Input {
    /// An event for the session.
    Session(EventView),
    /// The consumer issues a command; a dispatch of it begins.
    Issue(PlayerCommand),
    /// A reply for the dispatch under way.
    Command(DeviceReplyView),
}

/// A session together with the dispatch that runs beside it.
pub struct Casting {
    pub session: SessionView,
    pub command: DispatchView,
}

/// The session and the dispatch after one input: each input reaches the
/// machine it is meant for, and that machine only.
pub open spec fn casting_next(casting: Casting, input: Input) -> Casting {
    match input {
        Input::Session(event) => Casting { session: casting.session.next(event).state, ..casting },
        Input::Issue(command) => Casting {
            command: initial_dispatch(
                RequestView::Control(command),
                casting.session.config.destination_id,
            ),
            ..casting
        },
        Input::Command(reply) => Casting { command: casting.command.next(reply).state, ..casting },
    }
}

/// The session and the dispatch after `inputs`.
pub open spec fn casting_run(start: Casting, inputs: Seq<Input>) -> Casting
    decreases inputs.len(),
{
    if inputs.len() == 0 {
        start
    } else {
        casting_next(casting_run(start, inputs.drop_last()), inputs.last())
    }
}

/// The events for the session among `inputs`, in order.
pub open spec fn session_events(inputs: Seq<Input>) -> Seq<EventView>
    decreases inputs.len(),
{
    if inputs.len() == 0 {
        Seq::empty()
    } else {
        match inputs.last() {
            Input::Session(event) => session_events(inputs.drop_last()).push(event),
            _ => session_events(inputs.drop_last()),
        }
    }
}

/// Commands leave the session alone: however commands and their replies are
/// interleaved with the session's events, the session is in the state that
/// its own events alone lead to, so its heartbeat replies and its polls come
/// as they would without any command.
pub proof fn law_commands_leave_session_alone(start: Casting, inputs: Seq<Input>)
    ensures
        casting_run(start, inputs).session == run(start.session, session_events(inputs)),
    decreases inputs.len(),
{
    if inputs.len() > 0 {
        law_commands_leave_session_alone(start, inputs.drop_last());
        match inputs.last() {
            Input::Session(event) => {
                let events = session_events(inputs.drop_last()).push(event);
                assert(events.drop_last() =~= session_events(inputs.drop_last()));
                assert(events.last() == event);
            },
            _ => {},
        }
    }
}

} // verus!
