//! What the screen shows of a model.
//!
//! Nothing is drawn here: [`render`] says what is to be drawn.

use vstd::prelude::*;
use crate::app::{LogLevel, Mode, Model, ModelView};
use crate::text::{InputSpan, InputSpanView, spans_view};

verus! {

/// The greatest number of log entries on the screen.
pub const LOG_LINES: usize = 64;

/// What is on the screen.
#[derive(Debug, PartialEq, Eq)]
pub enum Screen {
    /// The help screen.
    Help,
    /// The main screen: the media pane, the log and the input line.
    Control { log: Vec<String>, input: Vec<InputSpan> },
}

/// Mathematical value of a [`Screen`].
pub enum ScreenView {
    Help,
    Control { log: Seq<Seq<char>>, input: Seq<InputSpanView> },
}

/// The lines of text, each with what it holds.
pub open spec fn lines_view(lines: Seq<String>) -> Seq<Seq<char>> {
    lines.map_values(|line: String| line@)
}

impl View for Screen {
    type V = ScreenView;

    open spec fn view(&self) -> ScreenView {
        match self {
            Screen::Help => ScreenView::Help,
            Screen::Control { log, input } => ScreenView::Control {
                log: lines_view(log@),
                input: spans_view(input@),
            },
        }
    }
}

/// The log entries on the screen: the text of the newest entries, newest
/// first, [`LOG_LINES`] of them at most.
pub open spec fn visible_log(log: Seq<(LogLevel, Seq<char>)>) -> Seq<Seq<char>> {
    Seq::new(
        if log.len() <= LOG_LINES {
            log.len()
        } else {
            LOG_LINES as nat
        },
        |i: int| log[i].1,
    )
}

/// What the screen shows of a model.
pub open spec fn screen_of(model: ModelView) -> ScreenView {
    if model.mode == Mode::Help {
        ScreenView::Help
    } else {
        ScreenView::Control { log: visible_log(model.log), input: model.input_span() }
    }
}

/// The lines of the log pane.
pub fn draw_log(model: &Model) -> (lines: Vec<String>)
    ensures
        lines_view(lines@) == visible_log(model@.log),
{
    let mut lines: Vec<String> = Vec::new();
    let mut i: usize = 0;
    while i < model.log.len() && i < LOG_LINES
        invariant
            i <= model.log.len(),
            i <= LOG_LINES,
            lines@.len() == i,
            forall|j: int| 0 <= j < i ==> (#[trigger] lines@[j])@ == model.log@[j].1@,
        decreases model.log.len() - i,
    {
        lines.push(model.log[i].1.clone());
        i += 1;
    }
    assert(lines_view(lines@) =~= visible_log(model@.log));
    lines
}

/// The pieces of the input line.
pub fn draw_search_bar(model: &Model) -> (input: Vec<InputSpan>)
    requires
        model@.wf(),
    ensures
        spans_view(input@) == model@.input_span(),
{
    model.get_input_span()
}

/// Says what the screen has to show of `model`: the help screen in help
/// mode, the main screen in every other mode.
pub fn render(model: &Model) -> (screen: Screen)
    requires
        model@.wf(),
    ensures
        screen@ == screen_of(model@),
{
    match model.mode {
        Mode::Help => Screen::Help,
        _ => Screen::Control { log: draw_log(model), input: draw_search_bar(model) },
    }
}

} // verus!
