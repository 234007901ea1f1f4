//! What holds of every run of a session.
//!
//! A run is a state together with the events that a driver hands it, in
//! order. The laws below speak of the action that answers each event.

use vstd::prelude::*;
use crate::cast::device::{ApplicationView, DeviceCallView, DeviceMessageView, DeviceReplyView};
use crate::cast::error::CastErrorView;
use crate::cast::session::{
    ActionView, EventView, POLL_INTERVAL_MS, Phase, SessionConfigView, SessionView, Step,
    initial_session, log_line, wants_pong,
};
use crate::signal::ShutdownPoll;

verus! {

/// The state that `start` is in after `events`.
pub open spec fn run(start: SessionView, events: Seq<EventView>) -> SessionView
    decreases events.len(),
{
    if events.len() == 0 {
        start
    } else {
        run(start, events.drop_last()).next(events.last()).state
    }
}

/// The state in which event number `i` of a run arrives.
pub open spec fn state_at(start: SessionView, events: Seq<EventView>, i: int) -> SessionView {
    run(start, events.take(i))
}

/// The action that answers event number `i` of a run.
pub open spec fn action_at(start: SessionView, events: Seq<EventView>, i: int) -> ActionView {
    state_at(start, events, i).next(events[i]).action
}

/// A session is well formed when an error is on record only once it winds down.
pub open spec fn well_formed(session: SessionView) -> bool {
    session.failure is Some ==> session.step == Step::Releasing || session.step == Step::Stopped
}

/// The action is a status poll.
pub open spec fn is_poll(action: ActionView) -> bool {
    action matches ActionView::Device(DeviceCallView::MediaStatus { .. })
}

/// The action is a heartbeat pong.
pub open spec fn is_pong(action: ActionView) -> bool {
    action == ActionView::Device(DeviceCallView::Pong)
}

/// The action asks for the next inbound message.
pub open spec fn is_receive(action: ActionView) -> bool {
    action == ActionView::Device(DeviceCallView::Receive)
}

/// The event is an inbound heartbeat ping.
pub open spec fn is_ping(event: EventView) -> bool {
    event matches EventView::Device(DeviceReplyView::Inbound { message: Some(message) })
        && wants_pong(message)
}

/// The event says that the session has to shut down.
pub open spec fn is_shutdown(event: EventView) -> bool {
    event == EventView::Shutdown(ShutdownPoll::Signalled) || event == EventView::Shutdown(
        ShutdownPoll::Disconnected,
    )
}

/// The clock readings of a run never decrease.
pub open spec fn clock_monotone(events: Seq<EventView>) -> bool {
    forall|i: int, j: int|
        0 <= i <= j < events.len() && events[i] is Clock && events[j] is Clock
            ==> events[i]->now_ms <= events[j]->now_ms
}

/// Each state of a run follows from the one before by the event between them.
pub proof fn lemma_run_unfolds(start: SessionView, events: Seq<EventView>, i: int)
    requires
        0 <= i < events.len(),
    ensures
        state_at(start, events, i + 1) == state_at(start, events, i).next(events[i]).state,
{
    let prefix = events.take(i + 1);
    assert(prefix.drop_last() =~= events.take(i));
    assert(prefix.last() == events[i]);
}

/// A session starts well formed.
pub proof fn law_initial_session_is_well_formed(
    address: Seq<char>,
    media_url: Seq<char>,
    config: SessionConfigView,
    now_ms: u64,
)
    ensures
        well_formed(initial_session(address, media_url, config, now_ms)),
{
}

/// No event takes a well-formed session to one that is not.
pub proof fn law_well_formed_is_kept(session: SessionView, event: EventView)
    requires
        well_formed(session),
    ensures
        well_formed(session.next(event).state),
{
}

/// Every state of a run of a well-formed session is well formed.
pub proof fn law_runs_stay_well_formed(start: SessionView, events: Seq<EventView>, i: int)
    requires
        well_formed(start),
        0 <= i <= events.len(),
    ensures
        well_formed(state_at(start, events, i)),
    decreases i,
{
    if i == 0 {
        assert(events.take(0) =~= Seq::<EventView>::empty());
    } else {
        law_runs_stay_well_formed(start, events, i - 1);
        lemma_run_unfolds(start, events, i - 1);
        law_well_formed_is_kept(state_at(start, events, i - 1), events[i - 1]);
    }
}

/// Position of a stage in the life of a session.
pub open spec fn stage_number(phase: Phase) -> int {
    match phase {
        Phase::Connecting => 0,
        Phase::AppLaunching => 1,
        Phase::MediaLoading => 2,
        Phase::Running => 3,
        Phase::ShuttingDown => 4,
        Phase::Stopped => 5,
    }
}

/// The stages follow one another in one direction only: after an event a
/// session is in the stage it was in, or in a later one.
pub proof fn law_stages_are_linear(session: SessionView, event: EventView)
    ensures
        stage_number(session.next(event).state.phase()) >= stage_number(session.phase()),
{
}

/// The events of a start in which every call succeeds and the device
/// launches `app`.
pub open spec fn smooth_start(app: ApplicationView) -> Seq<EventView> {
    seq![
        EventView::Device(DeviceReplyView::Done),
        EventView::Device(DeviceReplyView::Done),
        EventView::Device(DeviceReplyView::Done),
        EventView::Device(DeviceReplyView::Launched { app }),
        EventView::Device(DeviceReplyView::Done),
        EventView::Device(DeviceReplyView::Done),
    ]
}

/// A session starts by connecting to the control destination, sending one
/// ping, launching the media receiver, connecting to the application that
/// was launched and loading the media into it; then it runs.
pub proof fn law_start_runs_the_session(
    address: Seq<char>,
    media_url: Seq<char>,
    config: SessionConfigView,
    now_ms: u64,
    app: ApplicationView,
)
    ensures
        ({
            let start = initial_session(address, media_url, config, now_ms);
            let events = smooth_start(app);
            &&& action_at(start, events, 0) == ActionView::Device(
                DeviceCallView::ConnectChannel { destination: config.destination_id },
            )
            &&& action_at(start, events, 1) == ActionView::Device(DeviceCallView::Ping)
            &&& action_at(start, events, 2) == ActionView::Device(DeviceCallView::LaunchApp)
            &&& action_at(start, events, 3) == ActionView::Device(
                DeviceCallView::ConnectChannel { destination: app.transport_id },
            )
            &&& action_at(start, events, 4) == ActionView::Device(
                DeviceCallView::Load {
                    transport_id: app.transport_id,
                    session_id: app.session_id,
                    content_id: media_url,
                    content_type: config.content_type,
                },
            )
            &&& action_at(start, events, 5) == ActionView::CheckShutdown
            &&& run(start, events).phase() == Phase::Running
            &&& run(start, events).last_poll_ms == now_ms
        }),
{
    let start = initial_session(address, media_url, config, now_ms);
    let events = smooth_start(app);
    assert(events.take(0) =~= Seq::<EventView>::empty());
    lemma_run_unfolds(start, events, 0);
    lemma_run_unfolds(start, events, 1);
    lemma_run_unfolds(start, events, 2);
    lemma_run_unfolds(start, events, 3);
    lemma_run_unfolds(start, events, 4);
    lemma_run_unfolds(start, events, 5);
    assert(events.take(6) =~= events);
}

/// The session is still starting: it has not begun to run.
pub open spec fn is_starting(session: SessionView) -> bool {
    session.phase() == Phase::Connecting || session.phase() == Phase::AppLaunching
        || session.phase() == Phase::MediaLoading
}

/// The report that a session is over because a call failed for `reason`.
pub open spec fn failure_report(reason: Seq<char>) -> ActionView {
    ActionView::Finish { result: Err(CastErrorView::ProtocolError(reason)) }
}

/// A failure while the session starts is fatal: the session never runs, and
/// it ends with the failure.
pub proof fn law_failed_start_never_runs(
    start: SessionView,
    events: Seq<EventView>,
    reason: Seq<char>,
    i: int,
    k: int,
)
    requires
        0 <= i <= k < events.len(),
        is_starting(state_at(start, events, i)),
        events[i] == (EventView::Device(DeviceReplyView::Failed { reason })),
    ensures
        state_at(start, events, k + 1).phase() == Phase::ShuttingDown || state_at(
            start,
            events,
            k + 1,
        ).phase() == Phase::Stopped,
        state_at(start, events, k + 1).failure == Some(CastErrorView::ProtocolError(reason)),
        action_at(start, events, k) is Finish ==> action_at(start, events, k) == failure_report(
            reason,
        ),
    decreases k,
{
    lemma_run_unfolds(start, events, k);
    if k > i {
        law_failed_start_never_runs(start, events, reason, i, k - 1);
    }
}

/// Every message that comes in is logged before the next one is asked for,
/// so the log keeps the order of arrival: the line of a message is handed
/// to the log channel at once, and the line of a ping as soon as its pong
/// has been sent.
pub proof fn law_message_is_logged(session: SessionView, message: DeviceMessageView)
    requires
        session.step == Step::Receiving,
    ensures
        ({
            let taken = session.next(
                EventView::Device(DeviceReplyView::Inbound { message: Some(message) }),
            );
            let line = ActionView::PublishLog { line: log_line(message) };
            if wants_pong(message) {
                &&& is_pong(taken.action)
                &&& taken.state.next(EventView::Device(DeviceReplyView::Done)).action == line
            } else {
                taken.action == line
            }
        }),
{
}

/// A status poll is asked for only on a clock reading that lies at least one
/// poll interval after the last reset of the poll timer.
pub proof fn law_poll_waits_for_interval(session: SessionView, event: EventView)
    requires
        is_poll(session.next(event).action),
    ensures
        session.step == Step::ReadingClock,
        event is Clock,
        event->now_ms - session.last_poll_ms >= POLL_INTERVAL_MS,
        session.next(event).state.step == Step::Polling,
{
}

/// Once a poll has been asked for at reading `at`, no further poll is asked
/// for before the timer has been reset to a reading that is no earlier.
spec fn poll_guarded(session: SessionView, at: u64) -> bool {
    ||| session.step == Step::Polling
    ||| session.step == Step::Reporting
    ||| session.step == Step::Stamping
    ||| session.step == Step::Releasing
    ||| session.step == Step::Stopped
    ||| session.last_poll_ms >= at
}

proof fn lemma_poll_stays_guarded(start: SessionView, events: Seq<EventView>, i: int, k: int)
    requires
        clock_monotone(events),
        0 <= i < k <= events.len(),
        is_poll(action_at(start, events, i)),
    ensures
        events[i] is Clock,
        poll_guarded(state_at(start, events, k), events[i]->now_ms),
    decreases k,
{
    law_poll_waits_for_interval(state_at(start, events, i), events[i]);
    if k == i + 1 {
        lemma_run_unfolds(start, events, i);
    } else {
        lemma_poll_stays_guarded(start, events, i, k - 1);
        lemma_run_unfolds(start, events, k - 1);
        let before = state_at(start, events, k - 1);
        if before.step == Step::Stamping && events[k - 1] is Clock {
            assert(events[i]->now_ms <= events[k - 1]->now_ms);
        }
    }
}

/// Two status polls of one run are asked for on clock readings that lie at
/// least one poll interval apart, whatever arrives in between and however
/// fast, as long as the clock does not run backwards.
pub proof fn law_polls_are_spaced(start: SessionView, events: Seq<EventView>, i: int, j: int)
    requires
        clock_monotone(events),
        0 <= i < j < events.len(),
        is_poll(action_at(start, events, i)),
        is_poll(action_at(start, events, j)),
    ensures
        events[i] is Clock,
        events[j] is Clock,
        events[j]->now_ms - events[i]->now_ms >= POLL_INTERVAL_MS,
{
    lemma_poll_stays_guarded(start, events, i, j);
    law_poll_waits_for_interval(state_at(start, events, j), events[j]);
}

/// A pong is sent for a ping that a receive brought in, and for nothing else.
pub proof fn law_pong_answers_a_ping(session: SessionView, event: EventView)
    ensures
        is_pong(session.next(event).action) <==> session.step == Step::Receiving && is_ping(
            event,
        ),
{
}

/// The session waits for an inbound message exactly when it has just asked
/// for one.
pub proof fn law_receive_is_asked_for(session: SessionView, event: EventView)
    ensures
        session.next(event).state.step == Step::Receiving <==> is_receive(
            session.next(event).action,
        ),
{
}

/// A heartbeat ping is answered by one pong at once, and by no second one:
/// the action that answers the ping is the pong, and no other pong follows
/// for as long as the session has not asked for the next inbound message.
pub proof fn law_ping_gets_one_pong(start: SessionView, events: Seq<EventView>, i: int, j: int)
    requires
        0 <= i < j < events.len(),
        state_at(start, events, i).step == Step::Receiving,
        is_ping(events[i]),
        forall|k: int| i < k < j ==> !is_receive(#[trigger] action_at(start, events, k)),
    ensures
        is_pong(action_at(start, events, i)),
        forall|k: int| i < k <= j ==> !is_pong(#[trigger] action_at(start, events, k)),
{
    assert forall|k: int| i < k <= j implies !is_pong(#[trigger] action_at(start, events, k)) by {
        lemma_not_receiving(start, events, i, j, k);
        law_pong_answers_a_ping(state_at(start, events, k), events[k]);
    }
}

proof fn lemma_not_receiving(start: SessionView, events: Seq<EventView>, i: int, j: int, k: int)
    requires
        0 <= i < k <= j < events.len(),
        state_at(start, events, i).step == Step::Receiving,
        is_ping(events[i]),
        forall|m: int| i < m < j ==> !is_receive(#[trigger] action_at(start, events, m)),
    ensures
        state_at(start, events, k).step != Step::Receiving,
    decreases k,
{
    lemma_run_unfolds(start, events, k - 1);
    if k > i + 1 {
        lemma_not_receiving(start, events, i, j, k - 1);
        assert(!is_receive(action_at(start, events, k - 1)));
        law_receive_is_asked_for(state_at(start, events, k - 1), events[k - 1]);
    }
}

/// A shutdown seen at the start of an iteration ends the session within that
/// iteration: the transport is released at once, every later event is
/// answered by the report that the session is over, and the session is
/// stopped from the next event on. No poll and no reply follow.
pub proof fn law_shutdown_ends_session(start: SessionView, events: Seq<EventView>, i: int, k: int)
    requires
        well_formed(start),
        0 <= i < k < events.len(),
        state_at(start, events, i).step == Step::CheckingShutdown,
        is_shutdown(events[i]),
    ensures
        action_at(start, events, i) == ActionView::Device(DeviceCallView::Release),
        state_at(start, events, i + 1).phase() == Phase::ShuttingDown,
        action_at(start, events, k) == (ActionView::Finish { result: Ok(()) }),
        state_at(start, events, k + 1).phase() == Phase::Stopped,
    decreases k,
{
    law_runs_stay_well_formed(start, events, i);
    lemma_run_unfolds(start, events, i);
    lemma_run_unfolds(start, events, k);
    if k > i + 1 {
        law_shutdown_ends_session(start, events, i, k - 1);
        lemma_wound_down(start, events, i, k);
    }
}

proof fn lemma_wound_down(start: SessionView, events: Seq<EventView>, i: int, k: int)
    requires
        well_formed(start),
        0 <= i < k <= events.len(),
        state_at(start, events, i).step == Step::CheckingShutdown,
        is_shutdown(events[i]),
    ensures
        state_at(start, events, k).failure is None,
        state_at(start, events, k).step == Step::Releasing || state_at(start, events, k).step
            == Step::Stopped,
    decreases k,
{
    law_runs_stay_well_formed(start, events, i);
    lemma_run_unfolds(start, events, k - 1);
    if k > i + 1 {
        lemma_wound_down(start, events, i, k - 1);
    }
}

/// The action releases the transport.
pub open spec fn is_release(action: ActionView) -> bool {
    action == ActionView::Device(DeviceCallView::Release)
}

proof fn lemma_release_comes_first(start: SessionView, events: Seq<EventView>, k: int)
    requires
        start.step == Step::OpeningTransport,
        0 < events.len(),
        events[0] == EventView::Device(DeviceReplyView::Done),
        0 <= k <= events.len(),
    ensures
        state_at(start, events, k).step == Step::OpeningTransport <==> k == 0,
        state_at(start, events, k).step == Step::Releasing ==> k >= 1 && is_release(
            action_at(start, events, k - 1),
        ),
        state_at(start, events, k).step == Step::Stopped ==> exists|m: int|
            0 <= m < k && is_release(#[trigger] action_at(start, events, m)),
    decreases k,
{
    if k == 0 {
        assert(events.take(0) =~= Seq::<EventView>::empty());
    } else {
        lemma_release_comes_first(start, events, k - 1);
        lemma_run_unfolds(start, events, k - 1);
        let before = state_at(start, events, k - 1);
        if state_at(start, events, k).step == Step::Stopped {
            if before.step == Step::Releasing {
                assert(is_release(action_at(start, events, k - 2)));
            } else {
                let m = choose|m: int|
                    0 <= m < k - 1 && is_release(#[trigger] action_at(start, events, m));
                assert(is_release(action_at(start, events, m)));
            }
        }
    }
}

/// A session releases its transport before it is over, however it ends:
/// once the transport is open, the report that the session is over comes
/// only after the transport has been released.
pub proof fn law_session_releases_transport(
    address: Seq<char>,
    media_url: Seq<char>,
    config: SessionConfigView,
    now_ms: u64,
    events: Seq<EventView>,
    k: int,
)
    requires
        0 <= k < events.len(),
        events[0] == EventView::Device(DeviceReplyView::Done),
        action_at(initial_session(address, media_url, config, now_ms), events, k) is Finish,
    ensures
        exists|m: int|
            0 <= m < k && is_release(
                #[trigger] action_at(
                    initial_session(address, media_url, config, now_ms),
                    events,
                    m,
                ),
            ),
{
    let start = initial_session(address, media_url, config, now_ms);
    lemma_release_comes_first(start, events, k);
    if state_at(start, events, k).step == Step::Releasing {
        assert(is_release(action_at(start, events, k - 1)));
    }
}

/// The action opens an iteration of the running session: the look at the
/// shutdown signal.
pub open spec fn opens_iteration(action: ActionView) -> bool {
    action == ActionView::CheckShutdown
}

/// The step lies behind the receive of its iteration, or behind all of them.
spec fn past_receive(step: Step) -> bool {
    ||| step == Step::Replying
    ||| step == Step::Logging
    ||| step == Step::ReadingClock
    ||| past_poll(step)
}

/// The step lies behind the poll of its iteration, or behind all of them.
spec fn past_poll(step: Step) -> bool {
    ||| step == Step::Polling
    ||| step == Step::Reporting
    ||| step == Step::Stamping
    ||| step == Step::Releasing
    ||| step == Step::Stopped
}

proof fn lemma_iteration_goes_on(
    start: SessionView,
    events: Seq<EventView>,
    i: int,
    k: int,
)
    requires
        0 <= i < k <= events.len(),
        forall|m: int| i < m < k ==> !opens_iteration(#[trigger] action_at(start, events, m)),
    ensures
        past_receive(state_at(start, events, i + 1).step) ==> past_receive(
            state_at(start, events, k).step,
        ),
        past_poll(state_at(start, events, i + 1).step) ==> past_poll(
            state_at(start, events, k).step,
        ),
    decreases k,
{
    if k > i + 1 {
        lemma_iteration_goes_on(start, events, i, k - 1);
        lemma_run_unfolds(start, events, k - 1);
        assert(!opens_iteration(action_at(start, events, k - 1)));
    }
}

/// An iteration of the running session sends one heartbeat reply at most:
/// between two pongs of a run the session looks at the shutdown signal, with
/// which the next iteration begins.
pub proof fn law_one_reply_per_iteration(
    start: SessionView,
    events: Seq<EventView>,
    i: int,
    j: int,
)
    requires
        0 <= i < j < events.len(),
        is_pong(action_at(start, events, i)),
        is_pong(action_at(start, events, j)),
    ensures
        exists|k: int| i < k < j && opens_iteration(#[trigger] action_at(start, events, k)),
{
    if !exists|k: int| i < k < j && opens_iteration(#[trigger] action_at(start, events, k)) {
        lemma_run_unfolds(start, events, i);
        lemma_iteration_goes_on(start, events, i, j);
        law_pong_answers_a_ping(state_at(start, events, i), events[i]);
        law_pong_answers_a_ping(state_at(start, events, j), events[j]);
    }
}

/// An iteration of the running session polls the status once at most:
/// between two polls of a run the session looks at the shutdown signal, with
/// which the next iteration begins.
pub proof fn law_one_poll_per_iteration(
    start: SessionView,
    events: Seq<EventView>,
    i: int,
    j: int,
)
    requires
        0 <= i < j < events.len(),
        is_poll(action_at(start, events, i)),
        is_poll(action_at(start, events, j)),
    ensures
        exists|k: int| i < k < j && opens_iteration(#[trigger] action_at(start, events, k)),
{
    if !exists|k: int| i < k < j && opens_iteration(#[trigger] action_at(start, events, k)) {
        lemma_run_unfolds(start, events, i);
        lemma_iteration_goes_on(start, events, i, j);
        law_poll_waits_for_interval(state_at(start, events, i), events[i]);
        law_poll_waits_for_interval(state_at(start, events, j), events[j]);
    }
}

} // verus!
