//! The smallest model: a main screen, and a search line for the path of the
//! file to cast.

use std::sync::mpsc::Sender;
use vstd::prelude::*;
use vstd::utf8::is_ascii_chars;
use crate::keys::{KeyCode, KeyEvent};
use crate::signal::raise;
use crate::text::{
    delete, deleted, editable, insert_char, is_ascii_char, is_editable, length, moved_left,
    moved_right,
};
use crate::ui::Handled;

verus! {

/// The way in which the cursor of the search line moves.
#[derive(Clone, Copy, Debug, PartialEq, Eq, Structural)]
pub enum CursorDir {
    Left,
    Right,
}

/// What the screen shows.
#[derive(Clone, Copy, Debug, PartialEq, Eq, Structural)]
pub enum State {
    /// The main screen.
    Main,
    /// The search line is being edited.
    Search,
}

/// The state of the screen and the search line.
pub struct Model {
    shutdown_tx: Sender<()>,
    /// What the screen shows.
    pub state: State,
    /// Where in the search line the cursor stands.
    pub search_cursor: usize,
    /// The search line: the path of a file.
    pub filepath: String,
}

/// Mathematical value of a [`Model`].
pub struct ModelView {
    pub state: State,
    pub search_cursor: usize,
    pub filepath: Seq<char>,
}

impl View for Model {
    type V = ModelView;

    closed spec fn view(&self) -> ModelView {
        ModelView {
            state: self.state,
            search_cursor: self.search_cursor,
            filepath: self.filepath@,
        }
    }
}

/// The search line after a backspace. With the cursor inside the line the
/// character under the cursor goes; with the cursor behind the line the last
/// character goes.
pub open spec fn backspaced(text: Seq<char>, cursor: usize) -> Seq<char> {
    if text.len() > 0 || cursor > 0 {
        if cursor != text.len() {
            text.remove(cursor as int)
        } else {
            text.drop_last()
        }
    } else {
        text
    }
}

/// The cursor after a backspace: it moves left only from behind the line.
pub open spec fn backspaced_cursor(text: Seq<char>, cursor: usize) -> usize {
    if (text.len() > 0 || cursor > 0) && cursor == text.len() {
        moved_left(cursor)
    } else {
        cursor
    }
}

impl ModelView {
    /// The search line and its cursor are ones that can be edited.
    pub open spec fn wf(self) -> bool {
        editable(self.filepath, self.search_cursor)
    }

    /// The model after the cursor has moved one place, as far as the line
    /// lets it.
    pub open spec fn move_search_cursor(self, dir: CursorDir) -> ModelView {
        match dir {
            CursorDir::Left => ModelView { search_cursor: moved_left(self.search_cursor), ..self },
            CursorDir::Right => ModelView {
                search_cursor: moved_right(self.filepath, self.search_cursor),
                ..self
            },
        }
    }

    /// The model after a key on the main screen: `/` opens the search line.
    pub open spec fn main_key(self, code: KeyCode) -> ModelView {
        if code == KeyCode::Char('/') {
            ModelView { state: State::Search, ..self }
        } else {
            self
        }
    }

    /// The model after a key on the search line.
    pub open spec fn search_key(self, code: KeyCode) -> ModelView {
        match code {
            KeyCode::Enter => ModelView { state: State::Main, ..self },
            KeyCode::Backspace => ModelView {
                filepath: backspaced(self.filepath, self.search_cursor),
                search_cursor: backspaced_cursor(self.filepath, self.search_cursor),
                ..self
            },
            KeyCode::Left => self.move_search_cursor(CursorDir::Left),
            KeyCode::Right => self.move_search_cursor(CursorDir::Right),
            KeyCode::Home => ModelView { search_cursor: 0, ..self },
            KeyCode::End => ModelView { search_cursor: self.filepath.len() as usize, ..self },
            KeyCode::Delete => ModelView {
                filepath: deleted(self.filepath, self.search_cursor),
                ..self
            },
            KeyCode::Char(ch) => ModelView {
                filepath: self.filepath.insert(self.search_cursor as int, ch),
                search_cursor: (self.search_cursor + 1) as usize,
                ..self
            },
            _ => self,
        }
    }

    /// The model after a key, whatever the screen shows.
    pub open spec fn after_key(self, code: KeyCode) -> ModelView {
        match self.state {
            State::Main => self.main_key(code),
            State::Search => self.search_key(code),
        }
    }

    /// The key raises the shutdown signal: escape does, on either screen.
    pub open spec fn raises(self, code: KeyCode) -> bool {
        code == KeyCode::Esc
    }

    /// The key, taken on the search line, leaves the line one that can be
    /// edited: every key does but a character that is not ASCII, or one for
    /// which there is no room.
    pub open spec fn search_keeps_editable(self, code: KeyCode) -> bool {
        match code {
            KeyCode::Char(ch) => is_ascii_char(ch) && self.filepath.len() + 1 < usize::MAX,
            _ => true,
        }
    }

    /// The key leaves the search line one that can be edited.
    pub open spec fn keeps_editable(self, code: KeyCode) -> bool {
        self.state == State::Search ==> self.search_keeps_editable(code)
    }
}

impl Model {
    /// A fresh model that raises its shutdown signal on `shutdown_tx`: the
    /// main screen, with an empty search line.
    pub fn new(shutdown_tx: Sender<()>) -> (model: Model)
        ensures
            model@ == (ModelView { state: State::Main, search_cursor: 0, filepath: Seq::empty() }),
    {
        Model { shutdown_tx, state: State::Main, search_cursor: 0, filepath: String::new() }
    }

    /// Whether the search line and its cursor are ones that can be edited:
    /// the key handlers ask for that.
    pub fn is_wf(&self) -> (ok: bool)
        ensures
            ok == self@.wf(),
    {
        is_editable(&self.filepath, self.search_cursor)
    }

    /// Takes a key press. On the main screen escape raises the shutdown
    /// signal and `/` opens the search line; on the search line the key
    /// edits the line.
    pub fn handle_key_event(&mut self, event: KeyEvent) -> (handled: Handled)
        requires
            old(self)@.wf(),
        ensures
            final(self)@ == old(self)@.after_key(event.code),
            handled is Shutdown <==> old(self)@.raises(event.code),
            old(self)@.keeps_editable(event.code) ==> final(self)@.wf(),
    {
        match self.state {
            State::Main => match event.code {
                KeyCode::Esc => Handled::Shutdown { taken: raise(&self.shutdown_tx) },
                KeyCode::Char(ch) => {
                    if ch == '/' {
                        self.state = State::Search;
                    }
                    Handled::Quietly
                },
                _ => Handled::Quietly,
            },
            State::Search => self.handle_search_input(event),
        }
    }

    /// Takes a key that edits the search line. Unicode is not handled: the
    /// line has to be ASCII text.
    pub fn handle_search_input(&mut self, event: KeyEvent) -> (handled: Handled)
        requires
            old(self)@.wf(),
        ensures
            final(self)@ == old(self)@.search_key(event.code),
            handled is Shutdown <==> old(self)@.raises(event.code),
            old(self)@.search_keeps_editable(event.code) ==> final(self)@.wf(),
    {
        let path_len = length(&self.filepath);
        match event.code {
            KeyCode::Esc => {
                return Handled::Shutdown { taken: raise(&self.shutdown_tx) };
            },
            KeyCode::Enter => {
                self.state = State::Main;
            },
            KeyCode::Backspace => {
                if path_len > 0 || self.search_cursor > 0 {
                    if self.search_cursor != path_len {
                        self.filepath.remove(self.search_cursor);
                    } else {
                        self.filepath.pop();
                        self.move_search_cursor(CursorDir::Left);
                    }
                }
            },
            KeyCode::Left => {
                self.move_search_cursor(CursorDir::Left);
            },
            KeyCode::Right => {
                self.move_search_cursor(CursorDir::Right);
            },
            KeyCode::Home => {
                self.search_cursor = 0;
            },
            KeyCode::End => {
                self.search_cursor = path_len;
            },
            KeyCode::Delete => {
                delete(&mut self.filepath, self.search_cursor);
            },
            KeyCode::Char(ch) => {
                self.search_cursor = insert_char(&mut self.filepath, self.search_cursor, ch);
            },
            _ => {},
        }
        Handled::Quietly
    }

    /// Moves the cursor of the search line one place, as far as the line
    /// lets it.
    pub fn move_search_cursor(&mut self, dir: CursorDir)
        requires
            is_ascii_chars(old(self)@.filepath),
            old(self)@.filepath.len() < usize::MAX,
        ensures
            final(self)@ == old(self)@.move_search_cursor(dir),
    {
        match dir {
            CursorDir::Left => {
                if self.search_cursor > 0 {
                    self.search_cursor -= 1;
                }
            },
            CursorDir::Right => {
                if self.search_cursor < length(&self.filepath) {
                    self.search_cursor += 1;
                }
            },
        }
    }
}

} // verus!
