//! Event-side logic of the Motor OS backend.

pub mod input;
pub mod internal;
pub mod probe;
pub mod ctrl_c;
pub mod source;
