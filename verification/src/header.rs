//! The control block itself: the state word, the wake-target cell, and the
//! cancellation / notify / register protocol over them.
//!
//! The block is shared between the runner, which reports completion or
//! closure through [`Header::notify`], and the single observer, which
//! deposits its wake target through [`Header::register`].  The state word is
//! the single source of truth for who may touch the cell: the cell is read
//! or written only under the NOTIFYING or REGISTERING flag, and the AWAITER
//! flag mirrors whether the cell is occupied.
//!
//! Waking is a caller-supplied callback that this block must not run while
//! mid-protocol (a fault inside it must escalate to an abort, never unwind
//! through the state transition).  Each mutator therefore commits its state
//! transition first and returns the target that is now due a wake, if any;
//! the surrounding runtime invokes that target.

use crate::state::{
    flags_of, has_flag, is_terminal, lemma_terminal_mask, ref_count_of, AWAITER, CLOSED, COMPLETED,
    HANDLE, NOTIFYING, REFERENCE, REGISTERING, RUNNING, SCHEDULED,
};
use vstd::prelude::*;

verus! {

/// A wake target: the handle deposited by the observer and invoked when the
/// task completes or is closed.
///
/// Two targets with the same `id` would wake the same underlying observer,
/// so a notifier may suppress the wake when the stored target matches its
/// own (self-wake suppression).
#[derive(Clone, Copy, PartialEq, Eq, Structural, Debug)]
pub struct Waker {
    /// Identifies the observer this target wakes.
    pub id: u64,
}

impl Waker {
    /// True when `self` and `other` would wake the same observer.
    pub fn will_wake(&self, other: &Waker) -> (r: bool)
        ensures
            r == (self.id == other.id),
    {
        self.id == other.id
    }
}

/// The header stored at the beginning of every heap-allocated task.
pub struct Header {
    /// Current state of the task: lifecycle flags plus the reference count,
    /// in the encoding of [`crate::state`].
    pub state: u64,

    /// The wake-target cell: at most one pending target, deposited by the
    /// observer and taken by a notifier.
    pub awaiter: Option<Waker>,
}

/// Coherence of the cell with the word, as it holds outside the two
/// critical sections: AWAITER is set exactly while a target is stored.
pub open spec fn cell_coherent(h: Header) -> bool {
    has_flag(h.state, AWAITER) <==> h.awaiter is Some
}

/// The state word after `cancel`: unchanged once terminal, otherwise forced
/// to exactly `CLOSED`, discarding every other bit.  A caller that needs the
/// reference count across this blunt transition must merge it back itself.
pub open spec fn cancel_transition(s: u64) -> u64 {
    if is_terminal(s) {
        s
    } else {
        CLOSED
    }
}

/// The state word after `notify`: when neither NOTIFYING nor REGISTERING was
/// set the caller drains the cell and clears AWAITER; otherwise it only
/// leaves NOTIFYING set for the party already inside the protocol.
pub open spec fn notify_transition_state(s: u64) -> u64 {
    if s & (NOTIFYING | REGISTERING) == 0 {
        s & !NOTIFYING & !AWAITER
    } else {
        s | NOTIFYING
    }
}

/// The cell after `notify`: drained when the caller had the right to drain
/// it, untouched otherwise.
pub open spec fn notify_transition_cell(s: u64, cell: Option<Waker>) -> Option<Waker> {
    if s & (NOTIFYING | REGISTERING) == 0 {
        None
    } else {
        cell
    }
}

/// The target `notify` hands back for waking: the drained target, unless
/// nothing was stored, the drain right was lost, or the target would only
/// wake the notifier itself (`current`).
pub open spec fn notify_woken(s: u64, cell: Option<Waker>, current: Option<Waker>) -> Option<
    Waker,
> {
    if s & (NOTIFYING | REGISTERING) == 0 {
        match cell {
            None => None,
            Some(w) => match current {
                None => Some(w),
                Some(c) => if w.id != c.id {
                    Some(w)
                } else {
                    None
                },
            },
        }
    } else {
        None
    }
}

/// The state word after `register`: untouched when a notification was in
/// flight (the waker is woken instead of stored), otherwise the protocol
/// flags are cleared and AWAITER records the stored target.
pub open spec fn register_transition_state(s: u64) -> u64 {
    if s & NOTIFYING != 0 {
        s
    } else {
        (s & !NOTIFYING & !REGISTERING) | AWAITER
    }
}

/// The cell after `register`: untouched when a notification was in flight,
/// otherwise it holds the freshly stored target.
pub open spec fn register_transition_cell(s: u64, cell: Option<Waker>, w: Waker) -> Option<
    Waker,
> {
    if s & NOTIFYING != 0 {
        cell
    } else {
        Some(w)
    }
}

/// The target `register` hands back for waking: the supplied waker itself,
/// exactly when a notification was already in flight.
pub open spec fn register_woken(s: u64, w: Waker) -> Option<Waker> {
    if s & NOTIFYING != 0 {
        Some(w)
    } else {
        None
    }
}

impl Header {
    /// Cancels the task.
    ///
    /// Marks the task as closed but does not reschedule it, drop its future,
    /// or wake anyone: the runner observes CLOSED on its next poll and
    /// performs the teardown.  On an already completed or closed task this
    /// is a no-op, and the wake-target cell is never touched.
    pub fn cancel(&mut self)
        ensures
            final(self).state == cancel_transition(old(self).state),
            final(self).awaiter == old(self).awaiter,
    {
        proof {
            lemma_terminal_mask(self.state);
        }
        // A task that has been completed or closed can't be canceled.
        if self.state & (COMPLETED | CLOSED) != 0 {
            return ;
        }
        self.state = CLOSED;
    }

    /// Delivers a completion or closure notification to the stored awaiter.
    ///
    /// Returns the target that is now due a wake, so that the caller can
    /// invoke it outside the protocol; `None` when no wake is due.  A target
    /// that would wake the same observer as `current` is suppressed (drained
    /// and dropped without a wake).
    #[inline]
    pub fn notify(&mut self, current: Option<&Waker>) -> (woken: Option<Waker>)
        ensures
            final(self).state == notify_transition_state(old(self).state),
            final(self).awaiter == notify_transition_cell(old(self).state, old(self).awaiter),
            woken == notify_woken(old(self).state, old(self).awaiter, copied(current)),
    {
        let state = self.state;
        // Mark the awaiter as being notified.
        self.state = self.state | NOTIFYING;
        // If the awaiter was not being notified nor registered, this caller
        // holds the right to drain the cell.
        if state & (NOTIFYING | REGISTERING) == 0 {
            // Take the waker out.
            let waker = self.awaiter;
            self.awaiter = None;
            // Mark the state as not being notified anymore nor containing an
            // awaiter.
            proof {
                assert(((state | NOTIFYING) & !NOTIFYING & !AWAITER) == (state & !NOTIFYING
                    & !AWAITER)) by (bit_vector);
            }
            self.state = self.state & !NOTIFYING & !AWAITER;
            match waker {
                None => None,
                Some(w) => match current {
                    None => Some(w),
                    Some(c) => if !w.will_wake(c) {
                        Some(w)
                    } else {
                        None
                    },
                },
            }
        } else {
            // A registration is in progress, or a notification is already in
            // flight: the party holding that flag observes NOTIFYING and
            // performs the wake.
            None
        }
    }

    /// Deposits the observer's wake target so a later notification finds it.
    ///
    /// Called when the handle is polled and the task has not completed.  The
    /// handle's pinned unique access rules out two registrations in flight
    /// at once, which is the `requires` below.  Returns the target that is
    /// now due a wake (the supplied waker itself, when a notification was
    /// already in flight), so that the caller can invoke it outside the
    /// protocol.
    #[inline]
    pub fn register(&mut self, waker: &Waker) -> (woken: Option<Waker>)
        requires
            old(self).state & REGISTERING == 0,
        ensures
            final(self).state == register_transition_state(old(self).state),
            final(self).awaiter == register_transition_cell(
                old(self).state,
                old(self).awaiter,
                *waker,
            ),
            woken == register_woken(old(self).state, *waker),
    {
        let state = self.state;
        // If we're in the notifying state at this moment, just hand the
        // waker back for an immediate wake, without storing anything:
        // storing would risk losing the notification already underway.
        if state & NOTIFYING != 0 {
            return Some(*waker);
        }
        self.state = self.state | REGISTERING;
        // Put the waker into the awaiter cell.
        self.awaiter = Some(*waker);
        // Re-check for a notification that arrived during storage, and drain
        // the cell again if one did: the drained target, not the stored one,
        // must then be woken.  With the single observer serialized against
        // the notifier by the snapshot above, this drain never fires here,
        // but the two-phase shape is what the protocol prescribes.
        let mut drained: Option<Waker> = None;
        if state & NOTIFYING != 0 {
            drained = self.awaiter;
            self.awaiter = None;
        }
        // The new state is not being notified nor registered, and AWAITER
        // records whether the stored waker survives as the pending target.
        let new = if drained.is_none() {
            (state & !NOTIFYING & !REGISTERING) | AWAITER
        } else {
            state & !NOTIFYING & !REGISTERING & !AWAITER
        };
        self.state = new;
        drained
    }

    /// Raises the reference count by one unit, leaving every flag bit as it
    /// was.
    pub fn acquire_ref(&mut self)
        requires
            old(self).state + REFERENCE <= u64::MAX,
        ensures
            final(self).state == old(self).state + REFERENCE,
            flags_of(final(self).state) == flags_of(old(self).state),
            ref_count_of(final(self).state) == ref_count_of(old(self).state) + 1,
            final(self).awaiter == old(self).awaiter,
    {
        let state = self.state;
        proof {
            assert(((state + 0x100) as u64) & 0xff == state & 0xff && ((state + 0x100) as u64)
                / 0x100 == state / 0x100 + 1) by (bit_vector)
                requires
                    state <= u64::MAX - 0x100,
            ;
        }
        self.state = self.state + REFERENCE;
    }

    /// Lowers the reference count by one unit, leaving every flag bit as it
    /// was.  The count must be positive: it reaches zero exactly once, at
    /// which point the block is destroyed rather than used further.
    pub fn release_ref(&mut self)
        requires
            ref_count_of(old(self).state) > 0,
        ensures
            final(self).state == old(self).state - REFERENCE,
            flags_of(final(self).state) == flags_of(old(self).state),
            ref_count_of(final(self).state) == ref_count_of(old(self).state) - 1,
            final(self).awaiter == old(self).awaiter,
    {
        let state = self.state;
        proof {
            assert(state >= 0x100 && ((state - 0x100) as u64) & 0xff == state & 0xff && ((state
                - 0x100) as u64) / 0x100 == state / 0x100 - 1) by (bit_vector)
                requires
                    state / 0x100 > 0,
            ;
        }
        self.state = self.state - REFERENCE;
    }
}

/// A read-only decoding of the state word into named fields plus the
/// numeric reference count: the diagnostic view of a header.  Purely
/// descriptive; nothing reads it back.
#[derive(Clone, Copy, PartialEq, Eq, Structural, Debug)]
pub struct StateSnapshot {
    /// The task is enqueued to run.
    pub scheduled: bool,
    /// The task is actively executing.
    pub running: bool,
    /// The computation finished normally.
    pub completed: bool,
    /// The task was canceled or is being destroyed.
    pub closed: bool,
    /// The wake-target cell holds a pending target.
    pub awaiter: bool,
    /// An external handle to the task still exists.
    pub handle: bool,
    /// The reference count held above the flags.
    pub ref_count: u64,
}

impl Header {
    /// Decodes the current state word for diagnostics.  No mutation; safe
    /// to call at any time.
    pub fn snapshot(&self) -> (v: StateSnapshot)
        ensures
            v.scheduled == has_flag(self.state, SCHEDULED),
            v.running == has_flag(self.state, RUNNING),
            v.completed == has_flag(self.state, COMPLETED),
            v.closed == has_flag(self.state, CLOSED),
            v.awaiter == has_flag(self.state, AWAITER),
            v.handle == has_flag(self.state, HANDLE),
            v.ref_count == ref_count_of(self.state),
    {
        let state = self.state;
        StateSnapshot {
            scheduled: state & SCHEDULED != 0,
            running: state & RUNNING != 0,
            completed: state & COMPLETED != 0,
            closed: state & CLOSED != 0,
            awaiter: state & AWAITER != 0,
            handle: state & HANDLE != 0,
            ref_count: state / REFERENCE,
        }
    }
}

/// The wake target `current` refers to, as a value; `None` when the notifier
/// supplied none.
pub open spec fn copied(current: Option<&Waker>) -> Option<Waker> {
    match current {
        None => None,
        Some(c) => Some(*c),
    }
}

} // verus!
