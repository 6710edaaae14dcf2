//! A keyboard-driven note feed: the note store, its filtered view, and the
//! modal input dispatcher that drives both together with a text buffer.

pub mod buffer;
pub mod clock;
pub mod dispatch;
pub mod dispatcher;
pub mod editor;
pub mod feed;
pub mod key;
pub mod sound;
pub mod state;
pub mod text;
