use vstd::prelude::*;

use crate::model::Card;

verus! {

/// Ticks that make up one unit of a position key: keys are fixed-point values
/// with three decimal digits.
pub const TICKS_PER_UNIT: u64 = 1000;

/// Default distance between neighbouring keys: 1000 units.
pub const DEFAULT_SPACING: u64 = 1_000_000;

/// Smallest gap that can still be bisected safely: 0.1 units.
pub const MIN_GAP: u64 = 100;

/// Largest key after which another item can still be appended.
pub const MAX_APPEND_KEY: u64 = 18_446_744_073_708_551_615;

/// The key chosen for an item inserted between `prev` and `next` (`None` at a
/// list boundary), and whether the container should be rebalanced: the gap
/// that was split is below `MIN_GAP`, the neighbours are out of order, or no
/// room is left above the last key.
pub open spec fn allocation(prev: Option<u64>, next: Option<u64>) -> (u64, bool) {
    match (prev, next) {
        (None, None) => (DEFAULT_SPACING, false),
        (None, Some(n)) => ((n / 2) as u64, n < MIN_GAP),
        (Some(p), None) => {
            if p <= MAX_APPEND_KEY {
                ((p + DEFAULT_SPACING) as u64, false)
            } else {
                (u64::MAX, true)
            }
        },
        (Some(p), Some(n)) => (((p + n) / 2) as u64, n < p + MIN_GAP),
    }
}

/// Computes the key for an item inserted between two neighbours (`None` for a
/// list boundary) and flags when the gap has become too small to bisect.
pub fn allocate_between(prev: Option<u64>, next: Option<u64>) -> (r: (u64, bool))
    ensures
        r == allocation(prev, next),
{
    match (prev, next) {
        (None, None) => (DEFAULT_SPACING, false),
        (None, Some(n)) => (n / 2, n < MIN_GAP),
        (Some(p), None) => {
            if p <= MAX_APPEND_KEY {
                (p + DEFAULT_SPACING, false)
            } else {
                (u64::MAX, true)
            }
        },
        (Some(p), Some(n)) => {
            let mid = ((p as u128 + n as u128) / 2) as u64;
            if n > p {
                (mid, n - p < MIN_GAP)
            } else {
                (mid, true)
            }
        },
    }
}

/// Keys in strictly increasing order: the display order of a container.
pub open spec fn strictly_sorted(keys: Seq<u64>) -> bool {
    forall|i: int, j: int| 0 <= i < j < keys.len() ==> keys[i] < keys[j]
}

/// The neighbours of the slot before index `i` of `keys` (`i == keys.len()`
/// appends).
pub open spec fn neighbours_at(keys: Seq<u64>, i: int) -> (Option<u64>, Option<u64>) {
    (
        if i > 0 { Some(keys[i - 1]) } else { None },
        if i < keys.len() { Some(keys[i]) } else { None },
    )
}

/// The keys of a container of `n` items right after a rebalance.
pub open spec fn rebalanced_keys(n: nat) -> Seq<u64> {
    Seq::new(n, |i: int| ((i + 1) * DEFAULT_SPACING) as u64)
}

/// The positions of a sequence of cards, in order.
pub open spec fn card_keys(cards: Seq<Card>) -> Seq<u64> {
    cards.map_values(|c: Card| c.position)
}

/// A container of `n` items can be rebalanced: its last key fits.
pub open spec fn rebalance_fits(n: nat) -> bool {
    n * DEFAULT_SPACING <= u64::MAX
}

/// Midpoint insertion keeps a container ordered: inserting the allocated key
/// at any slot of a strictly ordered list, when no rebalance was flagged,
/// leaves the list strictly ordered.
pub proof fn lemma_insertion_keeps_order(keys: Seq<u64>, i: int)
    requires
        strictly_sorted(keys),
        0 <= i <= keys.len(),
        !allocation(neighbours_at(keys, i).0, neighbours_at(keys, i).1).1,
    ensures
        strictly_sorted(keys.insert(i, allocation(neighbours_at(keys, i).0, neighbours_at(keys, i).1).0)),
{
    let k = allocation(neighbours_at(keys, i).0, neighbours_at(keys, i).1).0;
    let s = keys.insert(i, k);
    assert(i > 0 ==> keys[i - 1] < k);
    assert(i < keys.len() ==> k < keys[i]);
    assert forall|a: int, b: int| 0 <= a < b < s.len() implies s[a] < s[b] by {
        if b < i {
            assert(s[a] == keys[a] && s[b] == keys[b]);
        } else if b == i {
            assert(s[a] == keys[a]);
            if a < i - 1 {
                assert(keys[a] < keys[i - 1]);
            }
        } else if a > i {
            assert(s[a] == keys[a - 1] && s[b] == keys[b - 1]);
        } else if a == i {
            assert(s[b] == keys[b - 1]);
            if b - 1 > i {
                assert(keys[i] < keys[b - 1]);
            }
        } else {
            assert(s[a] == keys[a] && s[b] == keys[b - 1]);
        }
    }
}

/// `keys` after inserting, at slot `i`, the key allocated from its
/// neighbours there.
pub open spec fn insert_allocated(keys: Seq<u64>, i: int) -> Seq<u64> {
    keys.insert(i, allocation(neighbours_at(keys, i).0, neighbours_at(keys, i).1).0)
}

/// `keys` after one midpoint insertion per entry of `slots`, in order.
pub open spec fn insert_all(keys: Seq<u64>, slots: Seq<int>) -> Seq<u64>
    decreases slots.len(),
{
    if slots.len() == 0 {
        keys
    } else {
        insert_all(insert_allocated(keys, slots[0]), slots.drop_first())
    }
}

/// Every insertion of the run lands on a valid slot and flags no rebalance.
pub open spec fn no_rebalance_needed(keys: Seq<u64>, slots: Seq<int>) -> bool
    decreases slots.len(),
{
    if slots.len() == 0 {
        true
    } else {
        &&& 0 <= slots[0] <= keys.len()
        &&& !allocation(neighbours_at(keys, slots[0]).0, neighbours_at(keys, slots[0]).1).1
        &&& no_rebalance_needed(insert_allocated(keys, slots[0]), slots.drop_first())
    }
}

/// Any run of midpoint insertions that never asks for a rebalance keeps a
/// strictly ordered container strictly ordered.
pub proof fn lemma_insertions_keep_order(keys: Seq<u64>, slots: Seq<int>)
    requires
        strictly_sorted(keys),
        no_rebalance_needed(keys, slots),
    ensures
        strictly_sorted(insert_all(keys, slots)),
    decreases slots.len(),
{
    if slots.len() > 0 {
        lemma_insertion_keeps_order(keys, slots[0]);
        lemma_insertions_keep_order(insert_allocated(keys, slots[0]), slots.drop_first());
    }
}

/// Rebalanced keys are `1000, 2000, 3000, ...` units in order, and leave room:
/// allocating between two adjacent keys, before the first or after the last
/// does not flag another rebalance.
pub proof fn lemma_rebalanced_leaves_room(n: nat, i: int)
    requires
        rebalance_fits(n + 1),
        0 <= i <= n,
    ensures
        strictly_sorted(rebalanced_keys(n)),
        forall|j: int| 0 <= j < n ==> #[trigger] rebalanced_keys(n)[j] == (j + 1) * DEFAULT_SPACING,
        !allocation(neighbours_at(rebalanced_keys(n), i).0, neighbours_at(rebalanced_keys(n), i).1).1,
{
    let keys = rebalanced_keys(n);
    assert forall|j: int| 0 <= j < n implies #[trigger] keys[j] == (j + 1) * DEFAULT_SPACING by {
        assert((j + 1) * DEFAULT_SPACING <= n * DEFAULT_SPACING) by (nonlinear_arith)
            requires 0 <= j < n;
    }
    assert forall|a: int, b: int| 0 <= a < b < keys.len() implies keys[a] < keys[b] by {
        assert((a + 1) * DEFAULT_SPACING < (b + 1) * DEFAULT_SPACING) by (nonlinear_arith)
            requires a < b;
    }
    assert(n * DEFAULT_SPACING + DEFAULT_SPACING <= u64::MAX) by (nonlinear_arith)
        requires (n + 1) * DEFAULT_SPACING <= u64::MAX;
    if i > 0 && i < n {
        assert(keys[i] - keys[i - 1] == DEFAULT_SPACING) by (nonlinear_arith)
            requires keys[i] == (i + 1) * DEFAULT_SPACING, keys[i - 1] == i * DEFAULT_SPACING;
    }
}

/// Renumbers every card of a container to `(index + 1) * DEFAULT_SPACING`,
/// keeping display order and every other field.
pub fn rebalance(cards: &mut Vec<Card>)
    requires
        rebalance_fits(old(cards).len() as nat),
    ensures
        final(cards).len() == old(cards).len(),
        card_keys(final(cards)@) == rebalanced_keys(old(cards).len() as nat),
        forall|i: int| 0 <= i < old(cards).len() ==> #[trigger] final(cards)@[i] == (Card {
            position: final(cards)@[i].position,
            ..old(cards)@[i]
        }),
{
    let n = cards.len();
    let mut i: usize = 0;
    while i < n
        invariant
            n == cards.len() == old(cards).len(),
            rebalance_fits(n as nat),
            0 <= i <= n,
            forall|j: int| 0 <= j < i ==> #[trigger] cards@[j].position == (j + 1) * DEFAULT_SPACING,
            forall|j: int| 0 <= j < n ==> #[trigger] cards@[j] == (Card {
                position: cards@[j].position,
                ..old(cards)@[j]
            }),
        decreases n - i,
    {
        assert((i as int + 1) * DEFAULT_SPACING <= n * DEFAULT_SPACING) by (nonlinear_arith)
            requires i < n;
        cards[i].position = (i as u64 + 1) * DEFAULT_SPACING;
        i += 1;
    }
    assert(card_keys(cards@) =~= rebalanced_keys(n as nat));
}

} // verus!
