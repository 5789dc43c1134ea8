//! Editing core of a modal terminal text editor: a rope-backed text buffer,
//! a cursor that always stays inside the text, the modes that turn key
//! presses into editing events, and the dispatch that applies those events.

pub mod position;
pub mod text;
pub mod rope;
pub mod buffer;
pub mod cursor;
pub mod events;
pub mod file;
pub mod modes;
pub mod prompt;
pub mod session;
pub mod laws;
