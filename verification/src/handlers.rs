//! Reactions to events that arrive from outside.

pub mod bot_event;
pub mod track_end;
