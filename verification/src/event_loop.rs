//! The decisions of the front end's two loops: the one that turns key
//! presses and the passing of time into events, and the one that feeds the
//! events to the controller.

use std::sync::mpsc::Receiver;
use vstd::prelude::*;
use crate::app::{Controller, KeyOutcome, KeyOutcomeView, ModelView, UIEvent};
use crate::keys::{CONTROL, KeyCode, KeyEvent};
use crate::signal::{ShutdownPoll, poll_shutdown};

verus! {

/// The clock of the tick events.
#[derive(Clone, Copy, Debug, PartialEq, Eq, Structural)]
pub struct Ticker {
    /// Clock reading at the last tick, in milliseconds.
    pub last_tick_ms: u64,
    /// Time between two ticks, in milliseconds.
    pub tick_rate_ms: u64,
}

impl Ticker {
    /// Whether a tick is due at clock reading `now_ms`: one is when a tick
    /// rate or more has passed since the last one.
    pub open spec fn due(self, now_ms: u64) -> bool {
        now_ms - self.last_tick_ms >= self.tick_rate_ms
    }

    /// A ticker that starts at clock reading `now_ms`.
    pub fn start(tick_rate_ms: u64, now_ms: u64) -> (ticker: Ticker)
        ensures
            ticker == (Ticker { last_tick_ms: now_ms, tick_rate_ms }),
    {
        Ticker { last_tick_ms: now_ms, tick_rate_ms }
    }

    /// Whether a tick is due at clock reading `now_ms`.
    pub fn is_due(&self, now_ms: u64) -> (due: bool)
        ensures
            due == self.due(now_ms),
    {
        now_ms >= self.last_tick_ms && now_ms - self.last_tick_ms >= self.tick_rate_ms
    }

    /// Notes that a tick was sent at clock reading `now_ms`.
    pub fn restart(&mut self, now_ms: u64)
        ensures
            *final(self) == (Ticker { last_tick_ms: now_ms, ..*old(self) }),
    {
        self.last_tick_ms = now_ms;
    }
}

/// What the loop that feeds the controller does after an event.
#[derive(Debug, PartialEq, Eq)]
pub enum LoopStep {
    /// Go on; the outcome is what the controller asks for.
    Continue(KeyOutcome),
    /// Leave the loop and give the terminal back.
    Quit,
}

/// Mathematical value of a [`LoopStep`].
pub enum LoopStepView {
    Continue(KeyOutcomeView),
    Quit,
}

impl View for LoopStep {
    type V = LoopStepView;

    open spec fn view(&self) -> LoopStepView {
        match self {
            LoopStep::Continue(outcome) => LoopStepView::Continue(outcome@),
            LoopStep::Quit => LoopStepView::Quit,
        }
    }
}

/// The key press interrupts the program: control held alone, with `c`.
pub open spec fn interrupts(event: KeyEvent) -> bool {
    event.modifiers == CONTROL && event.code == KeyCode::Char('c')
}

/// The key press that the controller gets of an event: every key press
/// but the one that interrupts.
pub open spec fn forwarded(event: Option<UIEvent>) -> Option<KeyEvent> {
    match event {
        Some(UIEvent::Input(key)) => if interrupts(key) {
            None
        } else {
            Some(key)
        },
        _ => None,
    }
}

/// The event leaves the input line one that can be edited.
pub open spec fn keeps_editable(model: ModelView, event: Option<UIEvent>) -> bool {
    match forwarded(event) {
        Some(key) => model.keeps_editable(key.code),
        None => true,
    }
}

/// The model after an event: a key press goes to the controller unless it
/// interrupts; nothing else changes the model.
pub open spec fn model_after(model: ModelView, event: Option<UIEvent>) -> ModelView {
    match event {
        Some(UIEvent::Input(key)) => if interrupts(key) {
            model
        } else {
            model.after_key(key.code)
        },
        _ => model,
    }
}

/// What the loop does after an event, given what a look at the shutdown
/// signal found afterwards: it quits on an interrupting key press without a
/// look at the signal, and on a signal that is raised or has lost its owner.
pub open spec fn step_after(model: ModelView, event: Option<UIEvent>, found: ShutdownPoll)
    -> LoopStepView {
    match event {
        Some(UIEvent::Input(key)) => if interrupts(key) {
            LoopStepView::Quit
        } else if found.stops() {
            LoopStepView::Quit
        } else {
            LoopStepView::Continue(model.key_outcome(key.code))
        },
        _ => if found.stops() {
            LoopStepView::Quit
        } else {
            LoopStepView::Continue(KeyOutcomeView::Handled)
        },
    }
}

/// Whether the key press interrupts the program.
pub fn is_interrupt(event: &KeyEvent) -> (interrupt: bool)
    ensures
        interrupt == interrupts(*event),
{
    event.modifiers == CONTROL && match event.code {
        KeyCode::Char(ch) => ch == 'c',
        _ => false,
    }
}

/// Hands an event to the controller: a key press is handled unless it
/// interrupts the program. Returns what the controller asks for, or nothing
/// if the loop has to quit at once.
pub fn forward(controller: &mut Controller, event: Option<UIEvent>) -> (outcome: Option<
    KeyOutcome,
>)
    requires
        old(controller)@.wf(),
    ensures
        final(controller)@ == model_after(old(controller)@, event),
        keeps_editable(old(controller)@, event) ==> final(controller)@.wf(),
        match event {
            Some(UIEvent::Input(key)) => if interrupts(key) {
                outcome is None
            } else {
                outcome matches Some(asked) && asked@ == old(controller)@.key_outcome(key.code)
            },
            _ => outcome matches Some(asked) && asked@ == KeyOutcomeView::Handled,
        },
{
    match event {
        Some(UIEvent::Input(key)) => {
            if is_interrupt(&key) {
                None
            } else {
                Some(controller.handle_key_event(key))
            }
        },
        _ => Some(KeyOutcome::Handled),
    }
}

/// Decides how the loop goes on after an event was forwarded with outcome
/// `outcome` and a look at the shutdown signal found `found`.
pub fn decide(outcome: Option<KeyOutcome>, found: ShutdownPoll) -> (step: LoopStep)
    ensures
        step@ == match outcome {
            Some(asked) => if found.stops() {
                LoopStepView::Quit
            } else {
                LoopStepView::Continue(asked@)
            },
            None => LoopStepView::Quit,
        },
{
    match outcome {
        Some(asked) => {
            if found.must_stop() {
                LoopStep::Quit
            } else {
                LoopStep::Continue(asked)
            }
        },
        None => LoopStep::Quit,
    }
}

/// One round of the loop that feeds the controller: the event, if there is
/// one, is forwarded, and the shutdown signal is looked at. What the look
/// finds is not known beforehand, so the step is stated for whatever it
/// finds.
pub fn handle_ui_event(controller: &mut Controller, event: Option<UIEvent>, exit: &Receiver<()>) -> (step: LoopStep)
    requires
        old(controller)@.wf(),
    ensures
        final(controller)@ == model_after(old(controller)@, event),
        keeps_editable(old(controller)@, event) ==> final(controller)@.wf(),
        exists|found: ShutdownPoll| step@ == step_after(old(controller)@, event, found),
{
    let outcome = forward(controller, event);
    match outcome {
        Some(asked) => {
            let found = poll_shutdown(exit);
            let step = decide(Some(asked), found);
            assert(step@ == step_after(old(controller)@, event, found));
            step
        },
        None => {
            assert(LoopStepView::Quit == step_after(
                old(controller)@,
                event,
                ShutdownPoll::Empty,
            ));
            LoopStep::Quit
        },
    }
}

} // verus!
