//! How the model takes key presses, mode by mode.

use vstd::prelude::*;
use crate::keys::{KeyCode, KeyEvent};
use crate::signal::raise;
use crate::text::{
    delete, deleted, erase, erased, erased_cursor, insert_char, is_ascii_char, length, moved_left,
    moved_right,
};
use crate::ui::{Handled, Mode, Model, ModelView};

verus! {

impl ModelView {
    /// The model after a key on the help screen: escape, enter and `q` leave it.
    pub open spec fn help_key(self, code: KeyCode) -> ModelView {
        if code == KeyCode::Esc || code == KeyCode::Enter || code == KeyCode::Char('q') {
            ModelView { mode: Mode::Control, ..self }
        } else {
            self
        }
    }

    /// The model after a key in control mode: `?` brings up the help screen
    /// and `/` the input line.
    pub open spec fn control_key(self, code: KeyCode) -> ModelView {
        if code == KeyCode::Char('?') {
            ModelView { mode: Mode::Help, ..self }
        } else if code == KeyCode::Char('/') {
            ModelView { mode: Mode::Input, ..self }
        } else {
            self
        }
    }

    /// The key, taken in control mode, raises the shutdown signal: `q` does.
    pub open spec fn control_raises(self, code: KeyCode) -> bool {
        code == KeyCode::Char('q')
    }

    /// The model after a key in input mode.
    pub open spec fn input_key(self, code: KeyCode) -> ModelView {
        match code {
            KeyCode::Esc | KeyCode::Enter => ModelView { mode: Mode::Control, ..self },
            KeyCode::Delete => ModelView {
                input_string: deleted(self.input_string, self.input_cursor),
                ..self
            },
            KeyCode::Backspace => ModelView {
                input_string: erased(self.input_string, self.input_cursor),
                input_cursor: erased_cursor(self.input_string, self.input_cursor),
                ..self
            },
            KeyCode::Left => ModelView { input_cursor: moved_left(self.input_cursor), ..self },
            KeyCode::Right => ModelView {
                input_cursor: moved_right(self.input_string, self.input_cursor),
                ..self
            },
            KeyCode::Home => ModelView { input_cursor: 0, ..self },
            KeyCode::End => ModelView { input_cursor: self.input_string.len() as usize, ..self },
            KeyCode::Char(ch) => ModelView {
                input_string: self.input_string.insert(self.input_cursor as int, ch),
                input_cursor: (self.input_cursor + 1) as usize,
                ..self
            },
            _ => self,
        }
    }

    /// The model after a key, in whatever mode it is.
    pub open spec fn after_key(self, code: KeyCode) -> ModelView {
        match self.mode {
            Mode::Input => self.input_key(code),
            Mode::Help => self.help_key(code),
            Mode::Control => self.control_key(code),
        }
    }

    /// The key raises the shutdown signal.
    pub open spec fn raises(self, code: KeyCode) -> bool {
        self.mode == Mode::Control && self.control_raises(code)
    }

    /// The key, taken in input mode, leaves the input line one that can be
    /// edited: every key does but a character that is not ASCII, or one for
    /// which there is no room.
    pub open spec fn input_keeps_editable(self, code: KeyCode) -> bool {
        match code {
            KeyCode::Char(ch) => is_ascii_char(ch) && self.input_string.len() + 1 < usize::MAX,
            _ => true,
        }
    }

    /// The key leaves the input line one that can be edited.
    pub open spec fn keeps_editable(self, code: KeyCode) -> bool {
        self.mode == Mode::Input ==> self.input_keeps_editable(code)
    }
}

impl Model {
    /// Takes a key while the help screen is up.
    pub fn help_mode_handler(&mut self, event: KeyEvent)
        ensures
            final(self)@ == old(self)@.help_key(event.code),
    {
        match event.code {
            KeyCode::Esc | KeyCode::Enter => {
                self.mode = Mode::Control;
            },
            KeyCode::Char(ch) => {
                if ch == 'q' {
                    self.mode = Mode::Control;
                }
            },
            _ => {},
        }
    }

    /// Takes a key that operates the program. On `q` the shutdown signal is
    /// raised, and the answer says whether it was taken.
    pub fn control_mode_handler(&mut self, event: KeyEvent) -> (handled: Handled)
        ensures
            final(self)@ == old(self)@.control_key(event.code),
            handled is Shutdown <==> old(self)@.control_raises(event.code),
    {
        match event.code {
            KeyCode::Char(ch) => {
                if ch == '?' {
                    self.mode = Mode::Help;
                    Handled::Quietly
                } else if ch == '/' {
                    self.mode = Mode::Input;
                    Handled::Quietly
                } else if ch == 'q' {
                    Handled::Shutdown { taken: raise(&self.shutdown_tx) }
                } else {
                    Handled::Quietly
                }
            },
            _ => Handled::Quietly,
        }
    }

    /// Takes a key that edits the input line. Unicode is not handled: the
    /// line has to be ASCII text.
    pub fn input_mode_handler(&mut self, event: KeyEvent)
        requires
            old(self)@.wf(),
        ensures
            final(self)@ == old(self)@.input_key(event.code),
            old(self)@.input_keeps_editable(event.code) ==> final(self)@.wf(),
    {
        let cursor = self.input_cursor;
        match event.code {
            KeyCode::Esc => {
                self.mode = Mode::Control;
            },
            KeyCode::Delete => {
                delete(&mut self.input_string, cursor);
            },
            KeyCode::Backspace => {
                self.input_cursor = erase(&mut self.input_string, cursor);
            },
            KeyCode::Enter => {
                self.mode = Mode::Control;
            },
            KeyCode::Left => {
                if cursor > 0 {
                    self.input_cursor = cursor - 1;
                }
            },
            KeyCode::Right => {
                if cursor < length(&self.input_string) {
                    self.input_cursor = cursor + 1;
                }
            },
            KeyCode::Home => {
                self.input_cursor = 0;
            },
            KeyCode::End => {
                self.input_cursor = length(&self.input_string);
            },
            KeyCode::Char(ch) => {
                self.input_cursor = insert_char(&mut self.input_string, cursor, ch);
            },
            _ => {},
        }
    }

    /// Takes a key press and changes the model as the mode says.
    pub fn handle_key_event(&mut self, event: KeyEvent) -> (handled: Handled)
        requires
            old(self)@.wf(),
        ensures
            final(self)@ == old(self)@.after_key(event.code),
            handled is Shutdown <==> old(self)@.raises(event.code),
            old(self)@.keeps_editable(event.code) ==> final(self)@.wf(),
    {
        match self.mode {
            Mode::Input => {
                self.input_mode_handler(event);
                Handled::Quietly
            },
            Mode::Help => {
                self.help_mode_handler(event);
                Handled::Quietly
            },
            Mode::Control => self.control_mode_handler(event),
        }
    }
}

} // verus!
