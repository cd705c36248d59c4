//! A terminal countdown timer, as a library.
//!
//! [`timer`] keeps the account of a countdown that can be paused and
//! resumed. [`ui`] lays out a status line and a progress bar and redraws
//! them without flicker. [`control`] is the loop around the two, one
//! decision at a time. [`input`] and [`ipc`] say what a key or a word from
//! another process asks for, [`args`] reads the values of the command line,
//! and [`notification`] words the desktop notifications.
//!
//! Nothing here touches the terminal, a socket or another process. The
//! library is handed what was read and returns what is to be done: the
//! renderer returns the requests to the terminal that make up a draw
//! ([`ops`]), and the caller carries them out. The clocks are the one thing
//! the library reads itself ([`clock`]), and every function that does so
//! has a twin that is told the time instead.

pub mod args;
pub mod clock;
pub mod color;
pub mod control;
pub mod duration;
pub mod input;
pub mod ipc;
pub mod notification;
pub mod ops;
pub mod text;
pub mod timer;
pub mod ui;
