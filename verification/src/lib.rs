//! Control block shared between a heap-allocated task and the handle that
//! observes its completion.
//!
//! The block packs lifecycle flags and a reference count into one unsigned
//! word, guards a single wake-target cell with the NOTIFYING/REGISTERING
//! protocol, and computes the offset at which a payload follows the block
//! inside one combined allocation.

pub mod header;
pub mod laws;
pub mod layout;
pub mod state;
