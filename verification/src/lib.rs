//! Casting a locally hosted media file to a receiver device on the local
//! network, and the model of the terminal front end that goes with it.
//!
//! Nothing here opens a connection, reads a file or draws on a screen. The
//! protocol logic in [`cast`] is written as state machines that take the
//! outcome of one operation and name the next; the front end's models in
//! [`app`] and [`ui`] take key presses as plain values and say what the
//! screen has to show. A driver performs the operations.

pub mod app;
pub mod cast;
pub mod event_loop;
pub mod keys;
pub mod media;
pub mod signal;
pub mod text;
pub mod ui;
