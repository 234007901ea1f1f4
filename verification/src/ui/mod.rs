//! A front end's model that acts on its own: it owns the sending end of the
//! shutdown signal and raises it itself.

pub mod input;
pub mod model;
pub mod view;

use std::collections::VecDeque;
use std::sync::mpsc::Sender;
use vstd::prelude::*;
use crate::text::{
    InputSpan, InputSpanView, cursor_spans, editable, is_editable, line_with_cursor,
    resting_spans, spans_view, whole_line,
};

verus! {

/// The greatest number of entries that the log keeps.
pub const LOG_CAPACITY: usize = 1024;

/// How much a log entry matters.
#[derive(Clone, Copy, Debug, PartialEq, Eq, Structural)]
pub enum LogLevel {
    General,
    Debug,
    Error,
}

/// What key presses mean at the moment.
#[derive(Clone, Copy, Debug, PartialEq, Eq, Structural)]
pub enum Mode {
    /// Keys operate the program.
    Control,
    /// Keys edit the input line.
    Input,
    /// The help screen is up.
    Help,
}

/// What a key press did besides changing the model.
#[derive(Clone, Copy, Debug, PartialEq, Eq, Structural)]
pub enum Handled {
    /// Nothing.
    Quietly,
    /// The shutdown signal was raised; `taken` says whether anybody was
    /// left to take it.
    Shutdown { taken: bool },
}

/// What the screen shows.
pub struct Model {
    /// What key presses mean at the moment.
    pub mode: Mode,
    /// Where in the input line the cursor stands.
    pub input_cursor: usize,
    /// The input line.
    pub input_string: String,
    log_items: VecDeque<(LogLevel, String)>,
    shutdown_tx: Sender<()>,
}

/// Mathematical value of a [`Model`].
pub struct ModelView {
    pub mode: Mode,
    pub input_cursor: usize,
    pub input_string: Seq<char>,
    /// The log, newest entry first.
    pub log_items: Seq<(LogLevel, Seq<char>)>,
}

/// The entries of a log, each with the text it holds.
pub open spec fn log_view(log: Seq<(LogLevel, String)>) -> Seq<(LogLevel, Seq<char>)> {
    log.map_values(|entry: (LogLevel, String)| (entry.0, entry.1@))
}

impl View for Model {
    type V = ModelView;

    closed spec fn view(&self) -> ModelView {
        ModelView {
            mode: self.mode,
            input_cursor: self.input_cursor,
            input_string: self.input_string@,
            log_items: log_view(self.log_items@),
        }
    }
}

/// The log after one more entry: the new entry comes first, and the oldest
/// is dropped if the log was full.
pub open spec fn logged(log: Seq<(LogLevel, Seq<char>)>, level: LogLevel, entry: Seq<char>) -> Seq<
    (LogLevel, Seq<char>),
> {
    seq![(level, entry)] + if log.len() >= LOG_CAPACITY {
        log.drop_last()
    } else {
        log
    }
}

/// A log that holds no more than [`LOG_CAPACITY`] entries holds no more
/// after one more entry, the new entry is its first, and the entries that
/// stay keep their order.
pub proof fn law_log_stays_bounded(
    log: Seq<(LogLevel, Seq<char>)>,
    level: LogLevel,
    entry: Seq<char>,
    i: int,
)
    requires
        log.len() <= LOG_CAPACITY,
    ensures
        logged(log, level, entry).len() <= LOG_CAPACITY,
        logged(log, level, entry)[0] == (level, entry),
        0 < i < logged(log, level, entry).len() ==> logged(log, level, entry)[i] == log[i - 1],
{
}

/// The model of a front end that has just started.
pub open spec fn initial_model() -> ModelView {
    ModelView {
        mode: Mode::Control,
        input_cursor: 0,
        input_string: Seq::empty(),
        log_items: Seq::empty(),
    }
}

impl ModelView {
    /// The input line and its cursor are ones that can be edited.
    pub open spec fn wf(self) -> bool {
        editable(self.input_string, self.input_cursor)
    }

    /// The pieces in which the input line is shown: in input mode the
    /// cursor is marked, in the other modes the line is shown as it is.
    pub open spec fn input_span(self) -> Seq<InputSpanView> {
        if self.mode == Mode::Input {
            cursor_spans(self.input_string, self.input_cursor, true)
        } else {
            resting_spans(self.input_string)
        }
    }
}

impl Model {
    /// A fresh model that raises its shutdown signal on `shutdown_tx`.
    pub fn new(shutdown_tx: Sender<()>) -> (model: Model)
        ensures
            model@ == initial_model(),
    {
        let model = Model {
            mode: Mode::Control,
            input_cursor: 0,
            input_string: String::new(),
            log_items: VecDeque::with_capacity(LOG_CAPACITY),
            shutdown_tx,
        };
        assert(model@.log_items =~= Seq::empty());
        model
    }

    /// Whether the input line and its cursor are ones that can be edited:
    /// the key handlers ask for that.
    pub fn is_wf(&self) -> (ok: bool)
        ensures
            ok == self@.wf(),
    {
        is_editable(&self.input_string, self.input_cursor)
    }

    /// The pieces in which the input line is shown. In input mode the
    /// character under the cursor is marked and followed by the rest of the
    /// line, be it empty; a cursor behind the line is a marked underscore.
    pub fn get_input_span(&self) -> (spans: Vec<InputSpan>)
        requires
            self@.wf(),
        ensures
            spans_view(spans@) == self@.input_span(),
    {
        match self.mode {
            Mode::Input => line_with_cursor(&self.input_string, self.input_cursor, true),
            _ => whole_line(&self.input_string),
        }
    }

    /// Puts a new entry at the front of the log. The log holds
    /// [`LOG_CAPACITY`] entries at most: when it is full, the oldest entry
    /// goes.
    pub fn log(&mut self, level: LogLevel, entry: String)
        ensures
            final(self)@ == (ModelView {
                log_items: logged(old(self)@.log_items, level, entry@),
                ..old(self)@
            }),
    {
        if self.log_items.len() >= LOG_CAPACITY {
            self.log_items.pop_back();
        }
        self.log_items.push_front((level, entry));
        assert(final(self)@.log_items =~= logged(old(self)@.log_items, level, entry@));
    }

    /// The log, newest entry first.
    pub fn get_log_items(&self) -> (items: &VecDeque<(LogLevel, String)>)
        ensures
            log_view(items@) == self@.log_items,
    {
        &self.log_items
    }

    /// What key presses mean at the moment.
    pub fn get_mode(&self) -> (mode: &Mode)
        ensures
            *mode == self@.mode,
    {
        &self.mode
    }
}

} // verus!
