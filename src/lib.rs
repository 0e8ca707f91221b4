//! A terminal focus timer: a countdown that ticks once a second, a table of
//! large ASCII-art glyphs that shows the time left, and the decisions that
//! drive a focus session, a rest session and the prompt to go on.

pub mod timer;
pub mod render;
pub mod style;
pub mod session;
