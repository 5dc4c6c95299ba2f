//! The layout calculator: where a payload placed immediately after the
//! control block begins inside the one combined allocation.
//!
//! The allocator puts the [`Header`] at offset zero and the task's payload
//! (tag, future state, eventual output) right after it, padded just enough
//! to satisfy the payload's alignment.  [`Header::offset_tag`] computes that
//! offset for a payload type; [`offset_after`] is the underlying pure
//! arithmetic.

use crate::header::Header;
use vstd::arithmetic::div_mod::{
    lemma_fundamental_div_mod, lemma_fundamental_div_mod_converse, lemma_mod_bound,
};
use vstd::arithmetic::power2::{is_pow2, is_pow2_equiv, is_pow2_exists, pow2};
use vstd::arithmetic::power::{lemma_pow1, lemma_pow_adds, lemma_pow_increases, lemma_pow_positive, pow};
use vstd::layout::{
    align_of, layout_for_type_is_valid, signed_int_min_max_values, size_of,
    unsigned_int_max_values,
};
use vstd::prelude::*;

verus! {

/// The smallest multiple of `align` that is at least `size`: the offset of
/// a payload of that alignment placed right after `size` bytes.
pub open spec fn rounded_up(size: nat, align: nat) -> nat
    recommends
        align >= 1,
{
    if size % align == 0 {
        size
    } else {
        (size + (align - size % align)) as nat
    }
}

/// `rounded_up` is what its name says: a multiple of `align`, at least
/// `size`, below `size + align`, and no larger than any other multiple of
/// `align` that reaches `size`.
pub proof fn lemma_rounded_up(size: nat, align: nat)
    requires
        align >= 1,
    ensures
        rounded_up(size, align) % align == 0,
        size <= rounded_up(size, align) < size + align,
        forall|m: nat| m >= size && #[trigger] (m % align) == 0 ==> rounded_up(size, align) <= m,
{
    let r = rounded_up(size, align);
    lemma_fundamental_div_mod(size as int, align as int);
    lemma_mod_bound(size as int, align as int);
    let q = size / align;
    if size % align == 0 {
        assert(r == q as int * align) by (nonlinear_arith)
            requires
                r == align * q,
        ;
        lemma_fundamental_div_mod_converse(r as int, align as int, q as int, 0);
    } else {
        assert(size == align * q + size % align);
        assert(r == align * q + align);
        assert(r == (q as int + 1) * align) by (nonlinear_arith)
            requires
                r == align * q + align,
        ;
        lemma_fundamental_div_mod_converse(r as int, align as int, q as int + 1, 0);
    }
    lemma_fundamental_div_mod(r as int, align as int);
    let rq = r / align;
    assert(r == align * rq);
    assert forall|m: nat| m >= size && #[trigger] (m % align) == 0 implies r <= m by {
        lemma_fundamental_div_mod(m as int, align as int);
        let mq = m / align;
        assert(m == align * mq);
        if m < r {
            assert(mq < rq) by (nonlinear_arith)
                requires
                    align >= 1,
                    align * mq < align * rq,
            ;
            assert(align * mq <= align * rq - align) by (nonlinear_arith)
                requires
                    align >= 1,
                    mq <= rq - 1,
            ;
            // Then m <= r - align < size, against m >= size.
            assert(false);
        }
    }
}

/// A power of two that fits an unsigned machine word is at most half of the
/// word's range, so a size and an alignment of valid layouts can be added
/// without overflowing.
proof fn lemma_pow2_at_most_half(a: int)
    requires
        is_pow2(a),
        a <= usize::MAX as int,
    ensures
        2 * a <= usize::MAX as int + 1,
{
    broadcast use is_pow2_equiv;

    assert(is_pow2_exists(a));
    let e = choose|e: nat| pow(2, e) == a;
    lemma_pow_positive(2, e);
    unsigned_int_max_values();
    let bits = usize::BITS as nat;
    assert(pow(2, bits) == usize::MAX as int + 1) by {
        lemma_pow_positive(2, bits);
        assert(usize::MAX as nat == pow2(bits) - 1);
    }
    assert(e < bits) by {
        if e >= bits {
            lemma_pow_increases(2, bits, e);
        }
    }
    assert(pow(2, e + 1) == 2 * a) by {
        lemma_pow_adds(2, e, 1);
        lemma_pow1(2);
    }
    lemma_pow_increases(2, (e + 1) as nat, bits);
}

/// The unsigned word holds one bit more than the signed one: its maximum is
/// twice the signed maximum plus one.
proof fn lemma_word_max_values()
    ensures
        usize::MAX as int == 2 * (isize::MAX as int) + 1,
{
    broadcast use vstd::layout::layout_of_primitives;

    unsigned_int_max_values();
    signed_int_min_max_values();
    assert((usize::MAX as nat) == pow(256, size_of::<usize>()) - 1);
    assert((isize::MAX as nat) * 2 == pow(256, size_of::<isize>()) - 2);
}

/// The smallest offset at least `size` that is a multiple of `align`: where
/// a payload of that alignment begins when placed after `size` bytes.
pub fn offset_after(size: usize, align: usize) -> (r: usize)
    requires
        align >= 1,
        size + align - 1 <= usize::MAX,
    ensures
        r == rounded_up(size as nat, align as nat),
        size <= r < size + align,
        r as nat % align as nat == 0,
        forall|m: nat| m >= size && #[trigger] (m % (align as nat)) == 0 ==> r <= m,
{
    proof {
        lemma_rounded_up(size as nat, align as nat);
    }
    let rem: usize = size % align;
    if rem == 0 {
        size
    } else {
        size + (align - rem)
    }
}

impl Header {
    /// Returns the offset at which a tag of type `T` is stored: the
    /// smallest multiple of `T`'s alignment at or after the header's own
    /// size, so that `T` can be placed right behind the header in the one
    /// combined allocation.
    #[inline]
    pub fn offset_tag<T>() -> (r: usize)
        ensures
            r == rounded_up(size_of::<Header>(), align_of::<T>()),
            size_of::<Header>() <= r < size_of::<Header>() + align_of::<T>(),
            r as nat % align_of::<T>() == 0,
            forall|m: nat|
                m >= size_of::<Header>() && #[trigger] (m % align_of::<T>()) == 0 ==> r <= m,
    {
        layout_for_type_is_valid::<Header>();
        layout_for_type_is_valid::<T>();
        let size: usize = core::mem::size_of::<Header>();
        let align: usize = core::mem::align_of::<T>();
        proof {
            // The header's size stays within the signed maximum and the
            // alignment within half the unsigned range, so the padded
            // offset fits the word.
            lemma_mod_bound(isize::MAX as int, align_of::<Header>() as int);
            lemma_pow2_at_most_half(align as int);
            lemma_word_max_values();
        }
        offset_after(size, align)
    }
}

} // verus!
