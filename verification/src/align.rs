//! Rounding up to the size of a pointer.

use vstd::prelude::*;

verus! {

/// The number of bytes in a pointer.
pub open spec fn word() -> int {
    if usize::BITS == 64 {
        8
    } else {
        4
    }
}

/// `n` is a multiple of the size of a pointer.
pub open spec fn is_aligned(n: int) -> bool {
    if usize::BITS == 64 {
        n % 8 == 0
    } else {
        n % 4 == 0
    }
}

/// `res` is the least multiple of the size of a pointer that is not below `value`.
pub open spec fn is_round_up(value: int, res: int) -> bool {
    &&& is_aligned(res)
    &&& value <= res < value + word()
}

/// What `ptr_align` gives for `value`: the rounded value, if it can be computed.
pub open spec fn aligned(value: usize) -> Option<usize> {
    if value + word() - 1 <= usize::MAX {
        Some(
            if usize::BITS == 64 {
                ((value + 7) / 8 * 8) as usize
            } else {
                ((value + 3) / 4 * 4) as usize
            },
        )
    } else {
        None
    }
}

/// `word` is the size that the language gives a pointer, and `is_aligned` speaks of its
/// multiples.
pub proof fn law_word_is_size_of_pointer(n: int)
    ensures
        word() == vstd::layout::size_of::<usize>(),
        is_aligned(n) <==> n % word() == 0,
{
    broadcast use vstd::layout::layout_of_primitives;

}

/// `aligned` gives the least multiple of the size of a pointer that is not below `value`.
pub proof fn law_aligned_rounds_up(value: usize)
    ensures
        aligned(value) matches Some(res) ==> is_round_up(value as int, res as int),
{
}

/// `aligned` has no result exactly when no multiple of the size of a pointer that fits in
/// a `usize` is at or above `value`.
pub proof fn law_unaligned_has_no_multiple(value: usize)
    ensures
        aligned(value) is None <==> forall|res: usize|
            value <= res ==> !#[trigger] is_aligned(res as int),
{
    law_aligned_rounds_up(value);
    if aligned(value) is Some {
        let res = aligned(value)->0;
        assert(value <= res && is_aligned(res as int));
    }
}

proof fn lemma_aligned_stays(value: usize)
    requires
        is_aligned(value as int),
    ensures
        aligned(value) == Some(value),
{
    law_aligned_rounds_up(value);
}

/// A value that is aligned already stays as it is; so aligning twice is aligning once.
pub proof fn law_aligning_is_idempotent(value: usize)
    ensures
        is_aligned(value as int) ==> aligned(value) == Some(value),
        aligned(value) matches Some(res) ==> aligned(res) == Some(res),
{
    if is_aligned(value as int) {
        lemma_aligned_stays(value);
    }
    if aligned(value) is Some {
        law_aligned_rounds_up(value);
        lemma_aligned_stays(aligned(value)->0);
    }
}

/// Aligning keeps the order of two values.
pub proof fn law_aligning_is_monotone(low: usize, high: usize)
    requires
        low <= high,
        aligned(high) is Some,
    ensures
        aligned(low) is Some,
        aligned(low)->0 <= aligned(high)->0,
{
}

proof fn lemma_mask_4(sum: usize)
    ensures
        (sum & !3usize) == sum / 4 * 4,
{
    assert((sum & !3usize) == sum / 4 * 4) by (bit_vector);
}

proof fn lemma_mask_8(sum: usize)
    ensures
        (sum & !7usize) == sum / 8 * 8,
{
    assert((sum & !7usize) == sum / 8 * 8) by (bit_vector);
}

/// Rounds `value` up to the next multiple of the size of a pointer.
///
/// There is no result if adding the size of a pointer less one overflows, that is, if
/// the next multiple does not fit in a `usize`.
pub fn ptr_align(value: usize) -> (res: Option<usize>)
    ensures
        res == aligned(value),
        res matches Some(rounded) ==> is_round_up(value as int, rounded as int),
{
    proof {
        law_word_is_size_of_pointer(0);
        law_aligned_rounds_up(value);
    }
    let size: usize = core::mem::size_of::<usize>() - 1;
    match value.checked_add(size) {
        Some(sum) => {
            proof {
                if size == 3 {
                    lemma_mask_4(sum);
                } else {
                    lemma_mask_8(sum);
                }
            }
            Some(sum & !size)
        },
        None => None,
    }
}

/// Over the size that the language gives a pointer: there is a result exactly when adding
/// that size less one does not overflow; and the result is the least multiple of that size
/// that is not below `value`.
pub proof fn law_ptr_align_in_full(value: usize, res: Option<usize>, multiple: int)
    requires
        call_ensures(ptr_align, (value,), res),
    ensures
        res is Some <==> value + vstd::layout::size_of::<usize>() - 1 <= usize::MAX,
        res matches Some(rounded) ==> {
            &&& rounded as int % vstd::layout::size_of::<usize>() as int == 0
            &&& value <= rounded
            &&& rounded < value + vstd::layout::size_of::<usize>()
            &&& value <= multiple && multiple % vstd::layout::size_of::<usize>() as int == 0
                ==> rounded <= multiple
        },
{
    law_word_is_size_of_pointer(multiple);
    if res is Some {
        let rounded = res->0 as int;
        law_word_is_size_of_pointer(rounded);
        if is_aligned(multiple) && value <= multiple {
            assert(rounded <= multiple) by {
                if usize::BITS == 64 {
                    assert(rounded % 8 == 0 && multiple % 8 == 0 && rounded < value + 8);
                } else {
                    assert(rounded % 4 == 0 && multiple % 4 == 0 && rounded < value + 4);
                }
            }
        }
    }
}

} // verus!
