//! tin: the mechanical half of keeping a project's working context.
//!
//! The library decides; the program around it reads and writes files.
//! Every decision here is a verified function of plain values: the
//! staleness line of a document, the context usage a transcript records,
//! whether the Stop hook asks for a save, the entry SessionStart hands back.

pub mod text;

pub mod paths;
pub mod staleness;
pub mod usage;

pub mod config;
pub mod event;
pub mod hook;
pub mod laws;
pub mod packaging;

pub use event::Event;
