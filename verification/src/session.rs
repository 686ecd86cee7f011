//! The per-guild playback core: tracks, the bounded queue, the controller,
//! the registry of sessions and playlist ingestion.

pub mod controller;
pub mod ingestion;
pub mod notification;
pub mod queue;
pub mod registry;
pub mod track;
