//! The front end's model and the controller that drives it.
//!
//! The model holds what the screen shows: the input line with its cursor,
//! the log, and the file that was chosen for casting. The controller turns
//! key presses into changes of the model. It draws nothing and reads no
//! file: what it needs from outside it asks for with a [`KeyOutcome`].

pub mod input;
pub mod view;

use std::collections::VecDeque;
use std::sync::mpsc::{Receiver, Sender};
use vstd::prelude::*;
use vstd::string::{StrSliceExecFns, StringExecFns};
use crate::keys::KeyEvent;
use crate::signal::shutdown_channel;
use crate::text::{
    InputSpan, InputSpanView, cursor_spans, editable, is_editable, length, line_with_cursor,
    resting_spans, spans_view, whole_line,
};

verus! {

/// The greatest number of entries that the log keeps.
pub const LOG_CAPACITY: usize = 1024;

/// How much a log entry matters.
#[derive(Clone, Copy, Debug, PartialEq, Eq, Structural)]
pub enum LogLevel {
    General,
    Debug,
    Error,
}

/// What key presses mean at the moment.
#[derive(Clone, Copy, Debug, PartialEq, Eq, Structural)]
pub enum Mode {
    /// Keys operate the program.
    Control,
    /// Keys edit the input line.
    Input,
    /// The help screen is up.
    Help,
}

/// What the front end's event loop hands on.
#[derive(Clone, Copy, Debug, PartialEq, Eq, Structural)]
pub enum UIEvent {
    /// A key was pressed.
    Input(KeyEvent),
    /// Time has passed.
    Tick,
}

/// What the screen shows.
#[derive(Debug, PartialEq, Eq)]
pub struct Model {
    /// What key presses mean at the moment.
    pub mode: Mode,
    /// Where in the input line the cursor stands.
    pub input_cursor: usize,
    /// The input line.
    pub input_string: String,
    /// The log, newest entry first.
    pub log: VecDeque<(LogLevel, String)>,
    /// Path of the file chosen for casting.
    pub selected_file: Option<String>,
}

/// Mathematical value of a [`Model`].
pub struct ModelView {
    pub mode: Mode,
    pub input_cursor: usize,
    pub input_string: Seq<char>,
    pub log: Seq<(LogLevel, Seq<char>)>,
    pub selected_file: Option<Seq<char>>,
}

/// The entries of a log, each with the text it holds.
pub open spec fn log_view(log: Seq<(LogLevel, String)>) -> Seq<(LogLevel, Seq<char>)> {
    log.map_values(|entry: (LogLevel, String)| (entry.0, entry.1@))
}

/// The text, if there is one.
pub open spec fn text_view(text: Option<String>) -> Option<Seq<char>> {
    match text {
        Some(text) => Some(text@),
        None => None,
    }
}

impl View for Model {
    type V = ModelView;

    open spec fn view(&self) -> ModelView {
        ModelView {
            mode: self.mode,
            input_cursor: self.input_cursor,
            input_string: self.input_string@,
            log: log_view(self.log@),
            selected_file: text_view(self.selected_file),
        }
    }
}

/// The log after one more entry: the new entry comes first, and the oldest
/// is dropped if the log was full.
pub open spec fn logged(log: Seq<(LogLevel, Seq<char>)>, level: LogLevel, entry: Seq<char>) -> Seq<
    (LogLevel, Seq<char>),
> {
    seq![(level, entry)] + if log.len() >= LOG_CAPACITY {
        log.drop_last()
    } else {
        log
    }
}

/// Where the file named on the input line is to be looked for.
#[derive(Debug, PartialEq, Eq)]
pub enum FileQuery {
    /// Below the user's home directory, at `rest`.
    Home { rest: String },
    /// At `path`, as it stands.
    Plain { path: String },
}

/// Mathematical value of a [`FileQuery`].
pub enum FileQueryView {
    Home { rest: Seq<char> },
    Plain { path: Seq<char> },
}

impl View for FileQuery {
    type V = FileQueryView;

    open spec fn view(&self) -> FileQueryView {
        match self {
            FileQuery::Home { rest } => FileQueryView::Home { rest: rest@ },
            FileQuery::Plain { path } => FileQueryView::Plain { path: path@ },
        }
    }
}

/// What a key press asks of the one who drives the controller.
#[derive(Debug, PartialEq, Eq)]
pub enum KeyOutcome {
    /// Nothing.
    Handled,
    /// The shutdown signal was raised.
    Shutdown,
    /// Look for the file and hand what was found to
    /// [`Controller::queue_file`].
    Queue(FileQuery),
}

/// Mathematical value of a [`KeyOutcome`].
pub enum KeyOutcomeView {
    Handled,
    Shutdown,
    Queue(FileQueryView),
}

impl View for KeyOutcome {
    type V = KeyOutcomeView;

    open spec fn view(&self) -> KeyOutcomeView {
        match self {
            KeyOutcome::Handled => KeyOutcomeView::Handled,
            KeyOutcome::Shutdown => KeyOutcomeView::Shutdown,
            KeyOutcome::Queue(query) => KeyOutcomeView::Queue(query@),
        }
    }
}

/// A log that holds no more than [`LOG_CAPACITY`] entries holds no more
/// after one more entry, the new entry is its first, and the entries that
/// stay keep their order.
pub proof fn law_log_stays_bounded(
    log: Seq<(LogLevel, Seq<char>)>,
    level: LogLevel,
    entry: Seq<char>,
    i: int,
)
    requires
        log.len() <= LOG_CAPACITY,
    ensures
        logged(log, level, entry).len() <= LOG_CAPACITY,
        logged(log, level, entry)[0] == (level, entry),
        0 < i < logged(log, level, entry).len() ==> logged(log, level, entry)[i] == log[i - 1],
{
}

/// The model of a front end that has just started.
pub open spec fn initial_model() -> ModelView {
    ModelView {
        mode: Mode::Control,
        input_cursor: 0,
        input_string: Seq::empty(),
        log: Seq::empty(),
        selected_file: None,
    }
}

/// The log line for an input that names no file.
pub open spec fn not_a_file_line(input: Seq<char>) -> Seq<char> {
    "\""@ + input + "\" is not a valid file."@
}

/// The log line for a file that was chosen.
pub open spec fn selected_line(path: Seq<char>) -> Seq<char> {
    "\""@ + path + "\" selected as active file."@
}

impl ModelView {
    /// The input line and its cursor are ones that can be edited.
    pub open spec fn wf(self) -> bool {
        editable(self.input_string, self.input_cursor)
    }

    /// The model after one more log entry.
    pub open spec fn log(self, level: LogLevel, entry: Seq<char>) -> ModelView {
        ModelView { log: logged(self.log, level, entry), ..self }
    }

    /// Where the file named on the input line is to be looked for: an input
    /// of more than three characters that begins with a tilde names a path
    /// below the home directory, which starts behind the tilde and the
    /// separator after it.
    pub open spec fn file_query(self) -> FileQueryView {
        if self.input_string.len() > 3 && self.input_string[0] == '~' {
            FileQueryView::Home { rest: self.input_string.skip(2) }
        } else {
            FileQueryView::Plain { path: self.input_string }
        }
    }

    /// The model after the search for the file on the input line has ended:
    /// with the file's full path, or with none if there is no such file.
    pub open spec fn queue_file(self, resolved: Option<Seq<char>>) -> ModelView {
        match resolved {
            Some(path) => ModelView { selected_file: Some(path), ..self }.log(
                LogLevel::General,
                selected_line(path),
            ),
            None => ModelView { selected_file: None, ..self }.log(
                LogLevel::Error,
                not_a_file_line(self.input_string),
            ),
        }
    }
}

impl ModelView {
    /// The pieces in which the input line is shown: in input mode the
    /// cursor is marked, in the other modes the line is shown as it is.
    pub open spec fn input_span(self) -> Seq<InputSpanView> {
        if self.mode == Mode::Input {
            cursor_spans(self.input_string, self.input_cursor, false)
        } else {
            resting_spans(self.input_string)
        }
    }
}

impl Model {
    /// The pieces in which the input line is shown. In input mode the
    /// character under the cursor is marked, or an underscore behind the
    /// line if the cursor stands there.
    pub fn get_input_span(&self) -> (spans: Vec<InputSpan>)
        requires
            self@.wf(),
        ensures
            spans_view(spans@) == self@.input_span(),
    {
        match self.mode {
            Mode::Input => line_with_cursor(&self.input_string, self.input_cursor, false),
            _ => whole_line(&self.input_string),
        }
    }

    /// The model of a front end that has just started.
    pub fn default() -> (model: Model)
        ensures
            model@ == initial_model(),
    {
        let model = Model {
            mode: Mode::Control,
            input_cursor: 0,
            input_string: String::new(),
            log: VecDeque::with_capacity(LOG_CAPACITY),
            selected_file: None,
        };
        assert(model@.log =~= Seq::empty());
        model
    }
}

/// The model together with the means to act on it.
pub struct Controller {
    pub model: Model,
    shutdown_tx: Sender<()>,
}

impl View for Controller {
    type V = ModelView;

    /// A controller is its model.
    closed spec fn view(&self) -> ModelView {
        self.model@
    }
}

impl Controller {
    /// A controller with a fresh model, and the receiving end of its
    /// shutdown signal.
    pub fn new() -> (made: (Controller, Receiver<()>))
        ensures
            made.0@ == initial_model(),
    {
        let (shutdown_tx, shutdown_rx) = shutdown_channel();
        let controller = Controller { model: Model::default(), shutdown_tx };
        (controller, shutdown_rx)
    }

    /// The model.
    pub fn model(&self) -> (model: &Model)
        ensures
            model@ == self@,
    {
        &self.model
    }

    /// Whether the input line and its cursor are ones that can be edited:
    /// the key handlers ask for that.
    pub fn is_wf(&self) -> (ok: bool)
        ensures
            ok == self@.wf(),
    {
        is_editable(&self.model.input_string, self.model.input_cursor)
    }

    /// Puts a new entry at the front of the log. The log holds
    /// [`LOG_CAPACITY`] entries at most: when it is full, the oldest entry
    /// goes.
    pub fn log(&mut self, level: LogLevel, entry: String)
        ensures
            final(self)@ == old(self)@.log(level, entry@),
    {
        if self.model.log.len() >= LOG_CAPACITY {
            self.model.log.pop_back();
        }
        self.model.log.push_front((level, entry));
        assert(final(self)@.log =~= logged(old(self)@.log, level, entry@));
    }

    /// Where the file named on the input line is to be looked for.
    pub fn file_query(&self) -> (query: FileQuery)
        requires
            self@.wf(),
        ensures
            query@ == self@.file_query(),
    {
        let len = length(&self.model.input_string);
        let line = self.model.input_string.as_str();
        if len > 3 && line.get_char(0) == '~' {
            FileQuery::Home { rest: String::from_str(line.substring_ascii(2, len)) }
        } else {
            FileQuery::Plain { path: self.model.input_string.clone() }
        }
    }

    /// Takes the outcome of the search for the file on the input line. A
    /// file that was found becomes the chosen file and is returned; if none
    /// was found, no file is chosen any more. Either way the log says so.
    pub fn queue_file(&mut self, resolved: Option<String>) -> (chosen: Option<String>)
        ensures
            final(self)@ == old(self)@.queue_file(text_view(resolved)),
            text_view(chosen) == text_view(resolved),
    {
        match resolved {
            Some(path) => {
                let mut line = String::from_str("\"");
                line.append(path.as_str());
                line.append("\" selected as active file.");
                self.model.selected_file = Some(path.clone());
                self.log(LogLevel::General, line);
                Some(path)
            },
            None => {
                let mut line = String::from_str("\"");
                line.append(self.model.input_string.as_str());
                line.append("\" is not a valid file.");
                self.model.selected_file = None;
                self.log(LogLevel::Error, line);
                None
            },
        }
    }
}

} // verus!
