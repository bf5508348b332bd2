//! Numbers by which objects are told apart in debug output.

use vstd::prelude::*;

verus! {

/// The source of debug ids. It is to be advanced as one atomic operation.
#[derive(Debug, PartialEq, Eq, Structural)]
pub struct DebugIds {
    /// The id that is handed out next.
    pub next: usize,
}

/// The id after `id`; after the largest one the ids start again from 0.
pub open spec fn id_after(id: usize) -> usize {
    if id == usize::MAX {
        0
    } else {
        (id + 1) as usize
    }
}

impl DebugIds {
    /// The source that has handed out no id yet.
    pub fn new() -> (res: Self)
        ensures
            res.next == 0,
    {
        DebugIds { next: 0 }
    }

    /// Hands out the next id.
    pub fn next_debug_id(&mut self) -> (id: usize)
        ensures
            id == old(self).next,
            final(self).next == id_after(old(self).next),
    {
        let id: usize = self.next;
        self.next = self.next.wrapping_add(1);
        id
    }
}

/// The id that the call after `calls` earlier ones hands out.
pub open spec fn id_of_call(calls: nat) -> usize
    decreases calls,
{
    if calls == 0 {
        0
    } else {
        id_after(id_of_call((calls - 1) as nat))
    }
}

/// The first call gives 0, the second 1, the third 2, and so on: each gives the number of
/// the calls before it, counted modulo the number of values of a `usize`.
pub proof fn law_ids_count_calls(calls: nat)
    ensures
        id_of_call(calls) == calls % (usize::MAX as nat + 1),
    decreases calls,
{
    let values = usize::MAX as nat + 1;
    if calls > 0 {
        law_ids_count_calls((calls - 1) as nat);
        let before = (calls - 1) as nat;
        vstd::arithmetic::div_mod::lemma_add_mod_noop(before as int, 1, values as int);
        vstd::arithmetic::div_mod::lemma_small_mod(1, values);
        if before % values == usize::MAX {
            vstd::arithmetic::div_mod::lemma_mod_self_0(values as int);
        } else {
            vstd::arithmetic::div_mod::lemma_small_mod(before % values + 1, values);
        }
    } else {
        vstd::arithmetic::div_mod::lemma_small_mod(0, values);
    }
}

/// No two of as many calls as a `usize` has values get the same id.
pub proof fn law_ids_are_distinct(first: nat, second: nat)
    requires
        first < second,
        second - first <= usize::MAX,
    ensures
        id_of_call(first) != id_of_call(second),
{
    law_ids_count_calls(first);
    law_ids_count_calls(second);
    let values = usize::MAX as int + 1;
    if id_of_call(first) == id_of_call(second) {
        let apart = second / (values as nat) - first / (values as nat);
        vstd::arithmetic::div_mod::lemma_fundamental_div_mod(first as int, values);
        vstd::arithmetic::div_mod::lemma_fundamental_div_mod(second as int, values);
        assert(second - first == values * apart) by (nonlinear_arith)
            requires
                first == values * (first / (values as nat)) + first % (values as nat),
                second == values * (second / (values as nat)) + second % (values as nat),
                first % (values as nat) == second % (values as nat),
                apart == second / (values as nat) - first / (values as nat),
        ;
        assert(false) by (nonlinear_arith)
            requires
                second - first == values * apart,
                0 < second - first < values,
        ;
    }
}

/// The first id is 0, and each call hands out the number after the one that the call before
/// it handed out; after the largest number comes 0 again.
pub proof fn law_next_id_is_one_more(
    ids: &mut DebugIds,
    first: usize,
    ids_then: &mut DebugIds,
    second: usize,
)
    requires
        call_ensures(DebugIds::next_debug_id, (ids,), first),
        *old(ids_then) == *final(ids),
        call_ensures(DebugIds::next_debug_id, (ids_then,), second),
    ensures
        call_ensures(DebugIds::new, (), *old(ids)) ==> first == 0,
        first < usize::MAX ==> second == first + 1,
        first == usize::MAX ==> second == 0,
{
}

} // verus!
