//! Client-side window decorations: hit-testing of the decoration surfaces,
//! the pointer state machine that turns input into window actions, and the
//! layout of the header bar and the four shadow edges.
pub mod flags;
pub mod pointer;
pub mod geometry;
pub mod hit;
pub mod frame;
pub mod layout;
