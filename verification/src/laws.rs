//! Laws of the control block's protocol, each proved over the transition
//! functions that the methods of [`crate::header::Header`] are specified
//! against.

use crate::header::{
    cancel_transition, notify_transition_cell, notify_transition_state, notify_woken,
    cell_coherent, register_transition_cell, register_transition_state, register_woken, Header,
    Waker,
};
use crate::state::{
    flags_of, has_flag, is_terminal, ref_count_of, AWAITER, CLOSED, COMPLETED, NOTIFYING,
    REFERENCE, REGISTERING,
};
use vstd::prelude::*;

verus! {

/// The state word after `n` cancellations in sequence.
pub open spec fn cancel_n(s: u64, n: nat) -> u64
    decreases n,
{
    if n == 0 {
        s
    } else {
        cancel_transition(cancel_n(s, (n - 1) as nat))
    }
}

/// Once COMPLETED or CLOSED is set, no sequence of `cancel` calls changes
/// the state word at all — in particular its COMPLETED and CLOSED bits —
/// and `cancel` never touches the wake-target cell or hands out a wake.
pub proof fn lemma_cancel_terminal_sticky(s: u64, n: nat)
    requires
        is_terminal(s),
    ensures
        cancel_n(s, n) == s,
    decreases n,
{
    if n > 0 {
        lemma_cancel_terminal_sticky(s, (n - 1) as nat);
    }
}

/// Register, then notify: an observer that deposits its target `w` on a
/// task that is not yet completed or closed is woken exactly once between
/// the two calls — by the notification when the protocol was quiet, by the
/// registration itself when a notification was already in flight — and
/// after both calls AWAITER is clear and the cell is empty.
pub proof fn lemma_register_then_notify(h: Header, w: Waker)
    requires
        !has_flag(h.state, COMPLETED),
        !has_flag(h.state, CLOSED),
        !has_flag(h.state, REGISTERING),
        // A notification already in flight presumes its drain has happened:
        // nothing stored, AWAITER clear.
        has_flag(h.state, NOTIFYING) ==> h.awaiter is None && !has_flag(h.state, AWAITER),
    ensures
        ({
            let r_woken = register_woken(h.state, w);
            let s1 = register_transition_state(h.state);
            let c1 = register_transition_cell(h.state, h.awaiter, w);
            let n_woken = notify_woken(s1, c1, None);
            ((r_woken == Some(w) && n_woken is None) || (r_woken is None && n_woken == Some(
                w,
            ))) && !has_flag(notify_transition_state(s1), AWAITER) && notify_transition_cell(
                s1,
                c1,
            ) is None
        }),
{
    let s = h.state;
    if has_flag(s, NOTIFYING) {
        assert(s & (NOTIFYING | REGISTERING) != 0 && ((s | NOTIFYING) & AWAITER) == 0)
            by (bit_vector)
            requires
                s & NOTIFYING != 0 && s & AWAITER == 0,
        ;
    } else {
        assert((((s & !NOTIFYING & !REGISTERING) | AWAITER) & (NOTIFYING | REGISTERING)) == 0)
            by (bit_vector);
        let s1 = register_transition_state(s);
        assert(((s1 & !NOTIFYING & !AWAITER) & AWAITER) == 0) by (bit_vector);
    }
}

/// Notify, then register: when a notification is in flight and nothing is
/// stored, the notification itself wakes nobody, and the observer's
/// following registration wakes its target `w` exactly once, immediately,
/// without ever storing it in the cell.
pub proof fn lemma_notify_then_register(h: Header, w: Waker)
    requires
        h.awaiter is None,
        has_flag(h.state, NOTIFYING),
        !has_flag(h.state, REGISTERING),
    ensures
        ({
            let s1 = notify_transition_state(h.state);
            let c1 = notify_transition_cell(h.state, h.awaiter);
            notify_woken(h.state, h.awaiter, None) is None && !has_flag(s1, REGISTERING)
                && register_woken(s1, w) == Some(w) && register_transition_state(s1) == s1
                && register_transition_cell(s1, c1, w) is None
        }),
{
    let s = h.state;
    assert(s & (NOTIFYING | REGISTERING) != 0 && (s | NOTIFYING) == s) by (bit_vector)
        requires
            s & NOTIFYING != 0,
    ;
}

/// Double notify: two notifications in sequence hand out at most one wake
/// between them — whoever drains the cell first wakes, the other finds it
/// empty or yields to the flag already set.
pub proof fn lemma_double_notify(h: Header)
    ensures
        ({
            let s1 = notify_transition_state(h.state);
            let c1 = notify_transition_cell(h.state, h.awaiter);
            !(notify_woken(h.state, h.awaiter, None) is Some && notify_woken(
                s1,
                c1,
                None,
            ) is Some)
        }),
{
}

/// Self-wake suppression: a target registered while the protocol is quiet
/// is not woken by a notifier whose own waker denotes the same observer,
/// and is woken by one whose waker denotes a different observer.
pub proof fn lemma_self_wake_suppression(h: Header, w: Waker, c: Waker)
    requires
        !has_flag(h.state, NOTIFYING),
        !has_flag(h.state, REGISTERING),
    ensures
        ({
            let s1 = register_transition_state(h.state);
            let c1 = register_transition_cell(h.state, h.awaiter, w);
            register_woken(h.state, w) is None && (w.id == c.id ==> notify_woken(
                s1,
                c1,
                Some(c),
            ) is None) && (w.id != c.id ==> notify_woken(s1, c1, Some(c)) == Some(w))
        }),
{
    let s = h.state;
    assert((((s & !NOTIFYING & !REGISTERING) | AWAITER) & (NOTIFYING | REGISTERING)) == 0)
        by (bit_vector);
}

/// AWAITER mirrors the cell across the protocol: a notification from any
/// state, and a registration from any state it may be entered in, each
/// carry a coherent header to a coherent header.
pub proof fn lemma_protocol_preserves_coherence(h: Header, w: Waker)
    requires
        cell_coherent(h),
    ensures
        cell_coherent(
            Header {
                state: notify_transition_state(h.state),
                awaiter: notify_transition_cell(h.state, h.awaiter),
            },
        ),
        !has_flag(h.state, REGISTERING) ==> cell_coherent(
            Header {
                state: register_transition_state(h.state),
                awaiter: register_transition_cell(h.state, h.awaiter, w),
            },
        ),
{
    let s = h.state;
    assert(((s & !NOTIFYING & !AWAITER) & AWAITER) == 0 && (((s & !NOTIFYING & !REGISTERING)
        | AWAITER) & AWAITER) != 0 && ((s | NOTIFYING) & AWAITER) == (s & AWAITER))
        by (bit_vector);
}

/// COMPLETED and CLOSED are terminal: once one of them is set, cancel,
/// notify and register all leave both bits exactly as they were.
pub proof fn lemma_terminal_bits_sticky(s: u64)
    ensures
        has_flag(cancel_transition(s), COMPLETED) == has_flag(s, COMPLETED) || !is_terminal(s),
        has_flag(cancel_transition(s), CLOSED) == has_flag(s, CLOSED) || !is_terminal(s),
        has_flag(notify_transition_state(s), COMPLETED) == has_flag(s, COMPLETED),
        has_flag(notify_transition_state(s), CLOSED) == has_flag(s, CLOSED),
        has_flag(register_transition_state(s), COMPLETED) == has_flag(s, COMPLETED),
        has_flag(register_transition_state(s), CLOSED) == has_flag(s, CLOSED),
{
    assert(((s & !NOTIFYING & !AWAITER) & COMPLETED) == (s & COMPLETED) && ((s & !NOTIFYING
        & !AWAITER) & CLOSED) == (s & CLOSED) && ((s | NOTIFYING) & COMPLETED) == (s
        & COMPLETED) && ((s | NOTIFYING) & CLOSED) == (s & CLOSED) && (((s & !NOTIFYING
        & !REGISTERING) | AWAITER) & COMPLETED) == (s & COMPLETED) && (((s & !NOTIFYING
        & !REGISTERING) | AWAITER) & CLOSED) == (s & CLOSED)) by (bit_vector);
}

/// One reference-count unit added to a word with room for it leaves every
/// flag bit alone and raises the count by exactly one.
pub proof fn lemma_ref_unit_step(s: u64)
    requires
        s + REFERENCE <= u64::MAX,
    ensures
        flags_of((s + REFERENCE) as u64) == flags_of(s),
        ref_count_of((s + REFERENCE) as u64) == ref_count_of(s) + 1,
{
    assert(((s + 0x100) as u64) & 0xff == s & 0xff && ((s + 0x100) as u64) / 0x100 == s / 0x100
        + 1) by (bit_vector)
        requires
            s <= u64::MAX - 0x100,
    ;
}

/// The word after raising the reference count by `n` units.
pub open spec fn refs_raised(s: u64, n: nat) -> int {
    s + n * REFERENCE
}

/// Reference-count round trip: raising the count by `n` units and then
/// lowering it by the same `n` units returns the word — and so its count
/// field — to exactly its original value, and the raised word carries the
/// original flag bits unchanged.
pub proof fn lemma_ref_round_trip(s: u64, n: nat)
    requires
        s + n * REFERENCE <= u64::MAX,
    ensures
        refs_raised(s, n) - n * REFERENCE == s,
        flags_of(refs_raised(s, n) as u64) == flags_of(s),
        ref_count_of(refs_raised(s, n) as u64) == ref_count_of(s) + n,
    decreases n,
{
    if n > 0 {
        lemma_ref_round_trip(s, (n - 1) as nat);
        lemma_ref_unit_step(refs_raised(s, (n - 1) as nat) as u64);
    }
}

} // verus!
