//! What the screen shows of a model.
//!
//! Nothing is drawn here: [`render`] says what is to be drawn.

use vstd::prelude::*;
use crate::text::{InputSpan, InputSpanView, spans_view};
use crate::ui::{LogLevel, Mode, Model, ModelView};

verus! {

/// The greatest number of log entries that are looked at for the screen.
pub const LOG_LINES: usize = 64;

/// What is on the screen.
#[derive(Debug, PartialEq, Eq)]
pub enum Screen {
    /// The help screen.
    Help,
    /// The main screen: the media pane, the log and the input line.
    Control { log: Vec<String>, input: Vec<InputSpan> },
}

/// Mathematical value of a [`Screen`].
pub enum ScreenView {
    Help,
    Control { log: Seq<Seq<char>>, input: Seq<InputSpanView> },
}

/// The lines of text, each with what it holds.
pub open spec fn lines_view(lines: Seq<String>) -> Seq<Seq<char>> {
    lines.map_values(|line: String| line@)
}

impl View for Screen {
    type V = ScreenView;

    open spec fn view(&self) -> ScreenView {
        match self {
            Screen::Help => ScreenView::Help,
            Screen::Control { log, input } => ScreenView::Control {
                log: lines_view(log@),
                input: spans_view(input@),
            },
        }
    }
}

/// The newest entries of a log, [`LOG_LINES`] of them at most.
pub open spec fn newest(log: Seq<(LogLevel, Seq<char>)>) -> Seq<(LogLevel, Seq<char>)> {
    if log.len() <= LOG_LINES {
        log
    } else {
        log.take(LOG_LINES as int)
    }
}

/// The entry is a general one.
pub open spec fn is_general(entry: (LogLevel, Seq<char>)) -> bool {
    entry.0 == LogLevel::General
}

/// The log entries on the screen: the text of the general entries among the
/// newest [`LOG_LINES`] entries, newest first.
pub open spec fn visible_log(log: Seq<(LogLevel, Seq<char>)>) -> Seq<Seq<char>> {
    newest(log).filter(|entry: (LogLevel, Seq<char>)| is_general(entry)).map_values(
        |entry: (LogLevel, Seq<char>)| entry.1,
    )
}

/// What the screen shows of a model.
pub open spec fn screen_of(model: ModelView) -> ScreenView {
    if model.mode == Mode::Help {
        ScreenView::Help
    } else {
        ScreenView::Control { log: visible_log(model.log_items), input: model.input_span() }
    }
}

/// The lines of the log pane.
pub fn draw_log(model: &Model) -> (lines: Vec<String>)
    ensures
        lines_view(lines@) == visible_log(model@.log_items),
{
    let items = model.get_log_items();
    let ghost log = model@.log_items;
    let ghost general = |entry: (LogLevel, Seq<char>)| is_general(entry);
    let ghost text = |entry: (LogLevel, Seq<char>)| entry.1;
    let mut lines: Vec<String> = Vec::new();
    let mut i: usize = 0;
    assert(log.take(0).filter(general) =~= Seq::empty()) by {
        reveal(Seq::filter);
    }
    assert(lines_view(lines@) =~= log.take(0).filter(general).map_values(text));
    while i < items.len() && i < LOG_LINES
        invariant
            log == crate::ui::log_view(items@),
            general == |entry: (LogLevel, Seq<char>)| is_general(entry),
            text == |entry: (LogLevel, Seq<char>)| entry.1,
            i <= items.len(),
            i <= LOG_LINES,
            lines_view(lines@) == log.take(i as int).filter(general).map_values(text),
        decreases items.len() - i,
    {
        let ghost before = lines_view(lines@);
        assert(log.take(i + 1).drop_last() =~= log.take(i as int));
        assert(log.take(i + 1).last() == log[i as int]);
        assert(log.take(i + 1).filter(general) == if is_general(log[i as int]) {
            log.take(i as int).filter(general).push(log[i as int])
        } else {
            log.take(i as int).filter(general)
        }) by {
            reveal(Seq::filter);
        }
        match items[i].0 {
            LogLevel::General => {
                lines.push(items[i].1.clone());
                assert(lines_view(lines@) =~= before.push(log[i as int].1));
                assert(log.take(i as int).filter(general).push(log[i as int]).map_values(text)
                    =~= before.push(log[i as int].1));
            },
            _ => {},
        }
        i += 1;
    }
    assert(log.take(i as int) =~= newest(log));
    lines
}

/// The pieces of the input line.
pub fn draw_search_bar(model: &Model) -> (input: Vec<InputSpan>)
    requires
        model@.wf(),
    ensures
        spans_view(input@) == model@.input_span(),
{
    model.get_input_span()
}

/// Says what the screen has to show of `model`: the help screen in help
/// mode, the main screen in every other mode.
pub fn render(model: &Model) -> (screen: Screen)
    requires
        model@.wf(),
    ensures
        screen@ == screen_of(model@),
{
    match model.get_mode() {
        Mode::Help => Screen::Help,
        _ => Screen::Control { log: draw_log(model), input: draw_search_bar(model) },
    }
}

} // verus!
