//! A multiple-choice quiz: a bank of questions, a session that walks through
//! it and keeps score, and the screen that shows the session.
//!
//! - [`session`] is the mathematical model of a session, and [`laws`] is what
//!   holds of it.
//! - [`app`] is the session that runs, each operation proved to follow the
//!   model.
//! - [`input`] says what each key does to a session.
//! - [`ui`] describes the screen for a session, and [`text`] writes the numbers
//!   on it.
//!
//! Nothing here touches a file or a terminal: the caller reads the bank and
//! the saved progress, draws the screen and reads the keys.

pub mod app;
pub mod input;
pub mod laws;
pub mod session;
pub mod text;
pub mod ui;
