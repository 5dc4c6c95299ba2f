//! The state word: lifecycle flags and a reference count packed into one
//! unsigned integer, with the spec functions that read its fields.

use vstd::prelude::*;

verus! {

/// Set while the task is enqueued to run.
pub const SCHEDULED: u64 = 0x1;

/// Set while the task is actively executing.
pub const RUNNING: u64 = 0x2;

/// Set once the computation has finished normally; never cleared.
pub const COMPLETED: u64 = 0x4;

/// Set once the task is canceled or being destroyed; never cleared.
pub const CLOSED: u64 = 0x8;

/// Set while a completion or closure notification is being delivered.
pub const NOTIFYING: u64 = 0x10;

/// Set while an observer is in the middle of depositing a wake target.
pub const REGISTERING: u64 = 0x20;

/// Set exactly while the wake-target cell holds a value that no notifier
/// has taken yet.
pub const AWAITER: u64 = 0x40;

/// Set while an external handle to the task still exists.
pub const HANDLE: u64 = 0x80;

/// One unit of the reference count, which occupies every bit above the
/// flags.
pub const REFERENCE: u64 = 0x100;

/// The bits that hold flags rather than the reference count.
pub const FLAG_MASK: u64 = 0xff;

/// True when the given flag bit is set in the word.
pub open spec fn has_flag(s: u64, flag: u64) -> bool {
    s & flag != 0
}

/// The flag bits of the word, with the reference count masked off.
pub open spec fn flags_of(s: u64) -> u64 {
    s & FLAG_MASK
}

/// The reference count held in the bits above the flags.
pub open spec fn ref_count_of(s: u64) -> u64 {
    s / REFERENCE
}

/// True once the word has entered a terminal state: completed or closed.
pub open spec fn is_terminal(s: u64) -> bool {
    has_flag(s, COMPLETED) || has_flag(s, CLOSED)
}

/// Testing COMPLETED and CLOSED under one mask is the same as testing the
/// two flags one by one.
pub proof fn lemma_terminal_mask(s: u64)
    ensures
        (s & (COMPLETED | CLOSED) != 0) == is_terminal(s),
{
    assert((s & (0x4u64 | 0x8) != 0) == (s & 0x4u64 != 0 || s & 0x8u64 != 0)) by (bit_vector);
}

} // verus!
