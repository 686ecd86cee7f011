//! Playback session management for a multi-guild music bot.
//!
//! Every guild drives its own playback session: an ordered, bounded queue of
//! tracks, a play/pause/skip/loop controller for the track at its head, and a
//! registry that maps guild identifiers to sessions. Audio transport, chat
//! gateways and anything else that performs I/O stay outside; they talk to
//! this crate in plain values.

pub mod commands;
pub mod components;
pub mod handlers;
pub mod session;
pub mod utils;
