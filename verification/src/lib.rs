//! Generation tasks for an infinite canvas: what may be submitted, how a
//! task's record lives and ends, what the image and the video executor do
//! at each turn, who is told of what, and how requests of a remote process
//! are matched with the acknowledgements of the live document.
//!
//! The crate decides and never waits: every function here takes what has
//! happened as plain values and says what is to be done next. Calls to the
//! remote service, the store, the file system and the clock's ticking
//! belong to whoever drives it.

pub mod ark;
pub mod bridge;
pub mod codec;
pub mod db;
pub mod fresh;
pub mod json;
pub mod mcp;
pub mod tasks;
pub mod text;
