//! Helpers shared by the commands.

pub mod message;
pub mod queue;
pub mod response;
pub mod result;
pub mod text;
