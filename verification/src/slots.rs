//! Sequences of cache entries in order of use, the most recently used first,
//! and what looking up, storing and removing an entry does to them.

use vstd::prelude::*;

verus! {

/// One entry as the contracts see it: composite key, value, and the time at
/// which it expires, in nanoseconds on the clock of the cache that holds it.
pub type Slot = (Seq<char>, Seq<char>, nat);

/// Whether some entry of `slots` has the key `key`.
pub open spec fn holds(slots: Seq<Slot>, key: Seq<char>) -> bool {
    exists|i: int| 0 <= i < slots.len() && (#[trigger] slots[i]).0 == key
}

/// The place of an entry with the key `key` in `slots`, where there is one.
pub open spec fn slot_of(slots: Seq<Slot>, key: Seq<char>) -> int {
    choose|i: int| 0 <= i < slots.len() && (#[trigger] slots[i]).0 == key
}

/// No two entries of `slots` share a key.
pub open spec fn distinct_keys(slots: Seq<Slot>) -> bool {
    forall|i: int, j: int|
        0 <= i < j < slots.len() ==> (#[trigger] slots[i]).0 != (#[trigger] slots[j]).0
}

/// `slots` after the entry at `i` has become the most recently used.
pub open spec fn promoted(slots: Seq<Slot>, i: int) -> Seq<Slot> {
    seq![slots[i]] + slots.remove(i)
}

/// `slots` after `slot` was put into a store of capacity `capacity`: an
/// entry with the same key is replaced, else the least recently used entry
/// leaves a full store; the new entry is the most recently used.
pub open spec fn slots_after_put(slots: Seq<Slot>, capacity: nat, slot: Slot) -> Seq<Slot> {
    if holds(slots, slot.0) {
        seq![slot] + slots.remove(slot_of(slots, slot.0))
    } else if slots.len() >= capacity {
        seq![slot] + slots.drop_last()
    } else {
        seq![slot] + slots
    }
}

/// `slots` without the entry of `key`, if it has one.
pub open spec fn slots_without(slots: Seq<Slot>, key: Seq<char>) -> Seq<Slot> {
    if holds(slots, key) {
        slots.remove(slot_of(slots, key))
    } else {
        slots
    }
}

/// The entry of `key` in `slots`, if it has one.
pub open spec fn lookup(slots: Seq<Slot>, key: Seq<char>) -> Option<Slot> {
    if holds(slots, key) {
        Some(slots[slot_of(slots, key)])
    } else {
        None
    }
}

/// In a sequence without repeated keys, an entry is found at its own place.
pub proof fn lemma_found_in_place(slots: Seq<Slot>, i: int)
    requires
        distinct_keys(slots),
        0 <= i < slots.len(),
    ensures
        holds(slots, slots[i].0),
        slot_of(slots, slots[i].0) == i,
        lookup(slots, slots[i].0) == Some(slots[i]),
{
    let j = slot_of(slots, slots[i].0);
    assert(slots[j].0 == slots[i].0);
}

/// Making an entry the most recently used changes the order alone: the
/// same keys are held, with the same entries.
pub proof fn lemma_promoted(slots: Seq<Slot>, i: int)
    requires
        distinct_keys(slots),
        0 <= i < slots.len(),
    ensures
        distinct_keys(promoted(slots, i)),
        promoted(slots, i).len() == slots.len(),
        promoted(slots, i)[0] == slots[i],
        forall|key: Seq<char>| #[trigger] lookup(promoted(slots, i), key) == lookup(slots, key),
{
    let after = promoted(slots, i);
    let origin = |j: int| if j == 0 { i } else if j <= i { j - 1 } else { j };
    assert forall|j: int| 0 <= j < after.len() implies #[trigger] after[j] == slots[origin(j)] by {}
    assert forall|a: int, b: int| 0 <= a < b < after.len() implies (#[trigger] after[a]).0 != (
    #[trigger] after[b]).0 by {
        assert(after[a] == slots[origin(a)]);
        assert(after[b] == slots[origin(b)]);
    }
    assert forall|key: Seq<char>| #[trigger] lookup(after, key) == lookup(slots, key) by {
        if holds(slots, key) {
            let j = slot_of(slots, key);
            let moved = if j == i { 0 } else if j < i { j + 1 } else { j };
            assert(after[moved] == slots[origin(moved)]);
            lemma_found_in_place(after, moved);
        } else if holds(after, key) {
            let j = slot_of(after, key);
            assert(after[j] == slots[origin(j)]);
            assert(slots[origin(j)].0 == key);
        }
    }
}

/// Removing an entry removes its key and leaves every other key with its
/// entry.
pub proof fn lemma_removed(slots: Seq<Slot>, i: int)
    requires
        distinct_keys(slots),
        0 <= i < slots.len(),
    ensures
        distinct_keys(slots.remove(i)),
        slots.remove(i).len() == slots.len() - 1,
        lookup(slots.remove(i), slots[i].0) is None,
        forall|key: Seq<char>|
            key != slots[i].0 ==> #[trigger] lookup(slots.remove(i), key) == lookup(slots, key),
{
    let after = slots.remove(i);
    let origin = |j: int| if j < i { j } else { j + 1 };
    assert forall|j: int| 0 <= j < after.len() implies #[trigger] after[j] == slots[origin(j)] by {}
    assert forall|a: int, b: int| 0 <= a < b < after.len() implies (#[trigger] after[a]).0 != (
    #[trigger] after[b]).0 by {
        assert(after[a] == slots[origin(a)]);
        assert(after[b] == slots[origin(b)]);
    }
    if holds(after, slots[i].0) {
        let j = slot_of(after, slots[i].0);
        assert(after[j] == slots[origin(j)]);
    }
    assert forall|key: Seq<char>| key != slots[i].0 implies #[trigger] lookup(after, key)
        == lookup(slots, key) by {
        if holds(slots, key) {
            let j = slot_of(slots, key);
            let moved = if j < i { j } else { j - 1 };
            assert(after[moved] == slots[origin(moved)]);
            lemma_found_in_place(after, moved);
        } else if holds(after, key) {
            let j = slot_of(after, key);
            assert(after[j] == slots[origin(j)]);
            assert(slots[origin(j)].0 == key);
        }
    }
}

/// An entry with a new key, put in front, is found under its key and leaves
/// every other key with its entry.
pub proof fn lemma_pushed_front(slots: Seq<Slot>, slot: Slot)
    requires
        distinct_keys(slots),
        !holds(slots, slot.0),
    ensures
        distinct_keys(seq![slot] + slots),
        (seq![slot] + slots).len() == slots.len() + 1,
        lookup(seq![slot] + slots, slot.0) == Some(slot),
        forall|key: Seq<char>|
            key != slot.0 ==> #[trigger] lookup(seq![slot] + slots, key) == lookup(slots, key),
{
    let after = seq![slot] + slots;
    assert(after[0] == slot);
    assert forall|j: int| 1 <= j < after.len() implies #[trigger] after[j] == slots[j - 1] by {}
    assert forall|a: int, b: int| 0 <= a < b < after.len() implies (#[trigger] after[a]).0 != (
    #[trigger] after[b]).0 by {
        assert(after[b] == slots[b - 1]);
        if a > 0 {
            assert(after[a] == slots[a - 1]);
        }
    }
    lemma_found_in_place(after, 0);
    assert forall|key: Seq<char>| key != slot.0 implies #[trigger] lookup(after, key) == lookup(
        slots,
        key,
    ) by {
        if holds(slots, key) {
            let j = slot_of(slots, key);
            assert(after[j + 1] == slots[j]);
            lemma_found_in_place(after, j + 1);
        } else if holds(after, key) {
            let j = slot_of(after, key);
            assert(after[j] == slots[j - 1]);
        }
    }
}

/// Whether putting an entry of `key` into `slots`, in a store of capacity
/// `capacity`, makes the least recently used entry leave.
pub open spec fn evicts(slots: Seq<Slot>, capacity: nat, key: Seq<char>) -> bool {
    !holds(slots, key) && slots.len() >= capacity
}

/// What putting an entry does: it is found under its key, as the most
/// recently used; the least recently used entry leaves where `evicts` says
/// so; every other key keeps its entry; the capacity is kept.
pub proof fn lemma_after_put(slots: Seq<Slot>, capacity: nat, slot: Slot)
    requires
        distinct_keys(slots),
        slots.len() <= capacity,
        capacity > 0,
    ensures
        distinct_keys(slots_after_put(slots, capacity, slot)),
        slots_after_put(slots, capacity, slot).len() <= capacity,
        slots_after_put(slots, capacity, slot).len() == if holds(slots, slot.0) || evicts(
            slots,
            capacity,
            slot.0,
        ) {
            slots.len()
        } else {
            slots.len() + 1
        },
        slots_after_put(slots, capacity, slot)[0] == slot,
        lookup(slots_after_put(slots, capacity, slot), slot.0) == Some(slot),
        forall|key: Seq<char>|
            key != slot.0 ==> #[trigger] lookup(slots_after_put(slots, capacity, slot), key) == if evicts(
                slots,
                capacity,
                slot.0,
            ) && key == slots.last().0 {
                None
            } else {
                lookup(slots, key)
            },
{
    if holds(slots, slot.0) {
        let i = slot_of(slots, slot.0);
        lemma_removed(slots, i);
        lemma_pushed_front(slots.remove(i), slot);
    } else if slots.len() >= capacity {
        let last = slots.len() - 1;
        lemma_removed(slots, last);
        assert(slots.drop_last() =~= slots.remove(last));
        assert(lookup(slots.drop_last(), slot.0) == lookup(slots, slot.0));
        lemma_pushed_front(slots.drop_last(), slot);
    } else {
        lemma_pushed_front(slots, slot);
    }
}

/// What removing a key does: the key is no longer held, and every other key
/// keeps its entry.
pub proof fn lemma_without(slots: Seq<Slot>, key: Seq<char>)
    requires
        distinct_keys(slots),
    ensures
        distinct_keys(slots_without(slots, key)),
        slots_without(slots, key).len() <= slots.len(),
        lookup(slots_without(slots, key), key) is None,
        forall|other: Seq<char>|
            other != key ==> #[trigger] lookup(slots_without(slots, key), other) == lookup(
                slots,
                other,
            ),
{
    if holds(slots, key) {
        lemma_removed(slots, slot_of(slots, key));
    }
}

} // verus!
