//! How the controller takes key presses, mode by mode.

use vstd::prelude::*;
use crate::app::{Controller, FileQueryView, KeyOutcome, KeyOutcomeView, Mode, ModelView};
use crate::keys::{KeyCode, KeyEvent};
use crate::signal::raise;
use crate::text::{
    delete, deleted, erase, erased, erased_cursor, insert_char, is_ascii_char, length, moved_left,
    moved_right,
};

verus! {

impl ModelView {
    /// The model after a key on the help screen: escape, enter and `q` leave it.
    pub open spec fn help_key(self, code: KeyCode) -> ModelView {
        if code == KeyCode::Esc || code == KeyCode::Enter || code == KeyCode::Char('q') {
            ModelView { mode: Mode::Control, ..self }
        } else {
            self
        }
    }

    /// The model after a key in control mode: `?` brings up the help screen
    /// and `/` the input line.
    pub open spec fn control_key(self, code: KeyCode) -> ModelView {
        if code == KeyCode::Char('?') {
            ModelView { mode: Mode::Help, ..self }
        } else if code == KeyCode::Char('/') {
            ModelView { mode: Mode::Input, ..self }
        } else {
            self
        }
    }

    /// What a key in control mode asks for: `q` shuts the program down.
    pub open spec fn control_outcome(self, code: KeyCode) -> KeyOutcomeView {
        if code == KeyCode::Char('q') {
            KeyOutcomeView::Shutdown
        } else {
            KeyOutcomeView::Handled
        }
    }

    /// The model after a key in input mode.
    pub open spec fn input_key(self, code: KeyCode) -> ModelView {
        match code {
            KeyCode::Esc => ModelView { mode: Mode::Control, ..self },
            KeyCode::Delete => ModelView {
                input_string: deleted(self.input_string, self.input_cursor),
                ..self
            },
            KeyCode::Backspace => ModelView {
                input_string: erased(self.input_string, self.input_cursor),
                input_cursor: erased_cursor(self.input_string, self.input_cursor),
                ..self
            },
            KeyCode::Left => ModelView { input_cursor: moved_left(self.input_cursor), ..self },
            KeyCode::Right => ModelView {
                input_cursor: moved_right(self.input_string, self.input_cursor),
                ..self
            },
            KeyCode::Home => ModelView { input_cursor: 0, ..self },
            KeyCode::End => ModelView { input_cursor: self.input_string.len() as usize, ..self },
            KeyCode::Char(ch) => ModelView {
                input_string: self.input_string.insert(self.input_cursor as int, ch),
                input_cursor: (self.input_cursor + 1) as usize,
                ..self
            },
            _ => self,
        }
    }

    /// What a key in input mode asks for: enter has the file on the input
    /// line looked for.
    pub open spec fn input_outcome(self, code: KeyCode) -> KeyOutcomeView {
        if code == KeyCode::Enter {
            KeyOutcomeView::Queue(self.file_query())
        } else {
            KeyOutcomeView::Handled
        }
    }

    /// The model after a key, in whatever mode it is.
    pub open spec fn after_key(self, code: KeyCode) -> ModelView {
        match self.mode {
            Mode::Input => self.input_key(code),
            Mode::Help => self.help_key(code),
            Mode::Control => self.control_key(code),
        }
    }

    /// What a key asks for, in whatever mode the model is.
    pub open spec fn key_outcome(self, code: KeyCode) -> KeyOutcomeView {
        match self.mode {
            Mode::Input => self.input_outcome(code),
            Mode::Help => KeyOutcomeView::Handled,
            Mode::Control => self.control_outcome(code),
        }
    }

    /// The key, taken in input mode, leaves the input line one that can be
    /// edited: every key does but a character that is not ASCII, or one for
    /// which there is no room.
    pub open spec fn input_keeps_editable(self, code: KeyCode) -> bool {
        match code {
            KeyCode::Char(ch) => is_ascii_char(ch) && self.input_string.len() + 1 < usize::MAX,
            _ => true,
        }
    }

    /// The key leaves the input line one that can be edited.
    pub open spec fn keeps_editable(self, code: KeyCode) -> bool {
        self.mode == Mode::Input ==> self.input_keeps_editable(code)
    }
}

impl Controller {
    /// Takes a key while the help screen is up.
    pub fn help_mode_handler(&mut self, event: KeyEvent)
        ensures
            final(self)@ == old(self)@.help_key(event.code),
    {
        match event.code {
            KeyCode::Esc | KeyCode::Enter => {
                self.model.mode = Mode::Control;
            },
            KeyCode::Char(ch) => {
                if ch == 'q' {
                    self.model.mode = Mode::Control;
                }
            },
            _ => {},
        }
    }

    /// Takes a key that operates the program. On `q` the shutdown signal is
    /// raised; whether anybody still listens for it makes no difference.
    pub fn control_mode_handler(&mut self, event: KeyEvent) -> (outcome: KeyOutcome)
        ensures
            final(self)@ == old(self)@.control_key(event.code),
            outcome@ == old(self)@.control_outcome(event.code),
    {
        match event.code {
            KeyCode::Char(ch) => {
                if ch == '?' {
                    self.model.mode = Mode::Help;
                    KeyOutcome::Handled
                } else if ch == '/' {
                    self.model.mode = Mode::Input;
                    KeyOutcome::Handled
                } else if ch == 'q' {
                    let _ = raise(&self.shutdown_tx);
                    KeyOutcome::Shutdown
                } else {
                    KeyOutcome::Handled
                }
            },
            _ => KeyOutcome::Handled,
        }
    }

    /// Takes a key that edits the input line. Unicode is not handled: the
    /// line has to be ASCII text.
    pub fn input_mode_handler(&mut self, event: KeyEvent) -> (outcome: KeyOutcome)
        requires
            old(self)@.wf(),
        ensures
            final(self)@ == old(self)@.input_key(event.code),
            outcome@ == old(self)@.input_outcome(event.code),
            old(self)@.input_keeps_editable(event.code) ==> final(self)@.wf(),
    {
        let cursor = self.model.input_cursor;
        match event.code {
            KeyCode::Esc => {
                self.model.mode = Mode::Control;
                KeyOutcome::Handled
            },
            KeyCode::Delete => {
                delete(&mut self.model.input_string, cursor);
                KeyOutcome::Handled
            },
            KeyCode::Backspace => {
                self.model.input_cursor = erase(&mut self.model.input_string, cursor);
                KeyOutcome::Handled
            },
            KeyCode::Enter => KeyOutcome::Queue(self.file_query()),
            KeyCode::Left => {
                if cursor > 0 {
                    self.model.input_cursor = cursor - 1;
                }
                KeyOutcome::Handled
            },
            KeyCode::Right => {
                if cursor < length(&self.model.input_string) {
                    self.model.input_cursor = cursor + 1;
                }
                KeyOutcome::Handled
            },
            KeyCode::Home => {
                self.model.input_cursor = 0;
                KeyOutcome::Handled
            },
            KeyCode::End => {
                self.model.input_cursor = length(&self.model.input_string);
                KeyOutcome::Handled
            },
            KeyCode::Char(ch) => {
                self.model.input_cursor = insert_char(&mut self.model.input_string, cursor, ch);
                KeyOutcome::Handled
            },
            _ => KeyOutcome::Handled,
        }
    }

    /// Takes a key press and changes the model as the mode says.
    pub fn handle_key_event(&mut self, event: KeyEvent) -> (outcome: KeyOutcome)
        requires
            old(self)@.wf(),
        ensures
            final(self)@ == old(self)@.after_key(event.code),
            outcome@ == old(self)@.key_outcome(event.code),
            old(self)@.keeps_editable(event.code) ==> final(self)@.wf(),
    {
        match self.model.mode {
            Mode::Input => self.input_mode_handler(event),
            Mode::Help => {
                self.help_mode_handler(event);
                KeyOutcome::Handled
            },
            Mode::Control => self.control_mode_handler(event),
        }
    }
}

} // verus!
