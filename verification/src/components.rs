//! Message components that the responses carry.

pub mod music_buttons;
