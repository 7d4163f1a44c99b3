//! The platform logic of a terminal library's Motor OS backend: how input
//! bytes are cleaned up before parsing, how the terminal's size is learned,
//! how the cursor position round trip is driven, and the small pieces of
//! shared state that the backend keeps.

pub mod cursor;
pub mod event;
pub mod terminal;
pub mod time;
