//! Identifiers for participants, sessions and issues.

use rand::Rng;
use std::collections::HashMap;
use vstd::prelude::*;

verus! {

/// Draws an identifier from the thread-local generator of the `rand` crate
/// (`thread_rng().gen::<u32>()`). Any value may come back, and two draws
/// need not differ, so nothing is stated about the result.
#[verifier::external_body]
pub(crate) fn generate_random_id() -> (id: u32) {
    rand::thread_rng().gen::<u32>()
}

/// The identifier an issue gets when it replaces the issue `current`: the
/// drawn one, or its successor if the draw happened to repeat `current`.
pub open spec fn renewed_id(current: u32, drawn: u32) -> u32 {
    if drawn != current {
        drawn
    } else if drawn == u32::MAX {
        0
    } else {
        (drawn + 1) as u32
    }
}

/// Picks the identifier of the issue that replaces the issue `current`, so
/// that a vote addressed to the replaced issue can never match the new one.
pub fn renew_issue_id(current: u32, drawn: u32) -> (id: u32)
    ensures
        id == renewed_id(current, drawn),
        id != current,
{
    if drawn != current {
        drawn
    } else if drawn == u32::MAX {
        0
    } else {
        drawn + 1
    }
}

/// The identifier `n` steps after `drawn`, going round from the largest
/// identifier to the smallest.
pub open spec fn nth_after(drawn: u32, n: int) -> u32 {
    ((drawn + n) % 0x1_0000_0000) as u32
}

/// Whether the identifier `n` steps after `drawn` is the first from `drawn`
/// on that is not in `taken`.
pub open spec fn is_first_free(taken: Set<u32>, drawn: u32, n: int) -> bool {
    &&& 0 <= n < 0x1_0000_0000
    &&& !taken.contains(nth_after(drawn, n))
    &&& forall|m: int| 0 <= m < n ==> taken.contains(#[trigger] nth_after(drawn, m))
}

/// The identifier to use for a draw of `drawn` while those in `taken` are
/// in use: the first from `drawn` on that is free, or `drawn` itself if
/// every identifier is in use.
pub open spec fn first_free(taken: Set<u32>, drawn: u32) -> u32 {
    if exists|n: int| is_first_free(taken, drawn, n) {
        nth_after(drawn, choose|n: int| is_first_free(taken, drawn, n))
    } else {
        drawn
    }
}

/// Whether `id` is fresh among `taken`: it is not in use, unless every
/// identifier is.
pub open spec fn is_fresh(taken: Set<u32>, id: u32) -> bool {
    (exists|free: u32| !taken.contains(free)) ==> !taken.contains(id)
}

/// If the identifier `n` steps after `drawn` is free, some identifier is
/// the first free one.
proof fn lemma_some_free_is_first(taken: Set<u32>, drawn: u32, n: int)
    requires
        0 <= n < 0x1_0000_0000,
        !taken.contains(nth_after(drawn, n)),
    ensures
        exists|m: int| is_first_free(taken, drawn, m),
    decreases n,
{
    if forall|m: int| 0 <= m < n ==> taken.contains(#[trigger] nth_after(drawn, m)) {
        assert(is_first_free(taken, drawn, n));
    } else {
        let m = choose|m: int| 0 <= m < n && !taken.contains(#[trigger] nth_after(drawn, m));
        lemma_some_free_is_first(taken, drawn, m);
    }
}

/// A draw that is free is used as it is; and whatever the draw, the
/// identifier used for it is free as long as any identifier is.
pub proof fn lemma_first_free_is_free(taken: Set<u32>, drawn: u32)
    ensures
        !taken.contains(drawn) ==> first_free(taken, drawn) == drawn,
        is_fresh(taken, first_free(taken, drawn)),
{
    if !taken.contains(drawn) {
        assert(nth_after(drawn, 0) == drawn);
        assert(is_first_free(taken, drawn, 0));
        let n = choose|n: int| is_first_free(taken, drawn, n);
        if n > 0 {
            assert(taken.contains(nth_after(drawn, 0)));
        }
    }
    if exists|id: u32| !taken.contains(id) {
        let id = choose|id: u32| !taken.contains(id);
        let n = if id >= drawn {
            id - drawn
        } else {
            id - drawn + 0x1_0000_0000
        };
        assert(nth_after(drawn, n) == id);
        lemma_some_free_is_first(taken, drawn, n);
    }
}

/// Finds the identifier to use for a draw of `drawn` while the keys of
/// `taken` are in use.
pub fn first_free_id<V>(taken: &HashMap<u32, V>, drawn: u32) -> (id: u32)
    ensures
        id == first_free(taken@.dom(), drawn),
{
    let mut id: u32 = drawn;
    let mut n: u64 = 0;
    while n < 0x1_0000_0000
        invariant
            0 <= n <= 0x1_0000_0000,
            n < 0x1_0000_0000 ==> id == nth_after(drawn, n as int),
            forall|m: int| 0 <= m < n ==> taken@.dom().contains(#[trigger] nth_after(drawn, m)),
        decreases 0x1_0000_0000 - n,
    {
        if !taken.contains_key(&id) {
            proof {
                assert(is_first_free(taken@.dom(), drawn, n as int));
                let chosen = choose|k: int| is_first_free(taken@.dom(), drawn, k);
                if chosen < n {
                    assert(taken@.dom().contains(nth_after(drawn, chosen)));
                } else if n < chosen {
                    assert(taken@.dom().contains(nth_after(drawn, n as int)));
                }
            }
            return id;
        }
        id = if id == u32::MAX {
            0
        } else {
            id + 1
        };
        n += 1;
    }
    proof {
        assert forall|k: int| !is_first_free(taken@.dom(), drawn, k) by {
            if 0 <= k < 0x1_0000_0000 {
                assert(taken@.dom().contains(nth_after(drawn, k)));
            }
        }
    }
    drawn
}

} // verus!
