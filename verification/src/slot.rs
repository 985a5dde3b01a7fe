//! The current slot: a counter that slot updates can only move forward.

use vstd::prelude::*;

verus! {

/// How far the network has come with a slot.
#[derive(Clone, Copy, Debug, PartialEq, Eq, Structural)]
pub enum SlotStatus {
    Processed,
    Confirmed,
    Rooted,
}

/// A notice that the network has reached a slot.
#[derive(Clone, Copy, Debug, PartialEq, Eq, Structural)]
pub struct SlotUpdateEvent {
    pub slot: u64,
    pub status: SlotStatus,
}

/// The current slot after one update: the update counts only where it is
/// ahead.
pub open spec fn later_slot(current: u64, update: u64) -> u64 {
    if update > current {
        update
    } else {
        current
    }
}

/// The current slot after a sequence of updates, taken in order.
pub open spec fn slot_after(current: u64, updates: Seq<SlotUpdateEvent>) -> u64
    decreases updates.len(),
{
    if updates.len() == 0 {
        current
    } else {
        later_slot(slot_after(current, updates.drop_last()), updates.last().slot)
    }
}

/// Takes up one slot update. An update that is not ahead of the current slot
/// changes nothing.
pub fn advance_slot(current: u64, update: &SlotUpdateEvent) -> (next: u64)
    ensures
        next == later_slot(current, update.slot),
        next >= current,
{
    if update.slot > current {
        update.slot
    } else {
        current
    }
}

/// Takes up a sequence of slot updates in order.
pub fn advance_slots(current: u64, updates: &Vec<SlotUpdateEvent>) -> (next: u64)
    ensures
        next == slot_after(current, updates@),
{
    let mut next = current;
    let mut i: usize = 0;
    while i < updates.len()
        invariant
            i <= updates.len(),
            next == slot_after(current, updates@.take(i as int)),
        decreases updates.len() - i,
    {
        assert(updates@.take(i + 1).drop_last() =~= updates@.take(i as int));
        next = advance_slot(next, &updates[i]);
        i += 1;
    }
    assert(updates@.take(i as int) =~= updates@);
    next
}

/// The current slot never moves backward: after any updates it is at least
/// what it was before them.
pub proof fn lemma_slot_never_regresses(current: u64, updates: Seq<SlotUpdateEvent>)
    ensures
        slot_after(current, updates) >= current,
    decreases updates.len(),
{
    if updates.len() > 0 {
        lemma_slot_never_regresses(current, updates.drop_last());
    }
}

/// Taking up further updates never lowers the current slot: what holds after
/// the first `n` of them is at most what holds after all.
pub proof fn lemma_slot_is_monotonic(current: u64, updates: Seq<SlotUpdateEvent>, n: int)
    requires
        0 <= n <= updates.len(),
    ensures
        slot_after(current, updates.take(n)) <= slot_after(current, updates),
    decreases updates.len(),
{
    if n == updates.len() {
        assert(updates.take(n) =~= updates);
    } else {
        assert(updates.drop_last().take(n) =~= updates.take(n));
        lemma_slot_is_monotonic(current, updates.drop_last(), n);
    }
}

/// After the updates the current slot is the greatest slot seen: it is no
/// less than any update, and it is the starting slot or one of the updates.
pub proof fn lemma_slot_is_greatest(current: u64, updates: Seq<SlotUpdateEvent>)
    ensures
        forall|i: int| 0 <= i < updates.len() ==> (#[trigger] updates[i]).slot <= slot_after(
            current,
            updates,
        ),
        slot_after(current, updates) == current || exists|i: int|
            0 <= i < updates.len() && (#[trigger] updates[i]).slot == slot_after(current, updates),
    decreases updates.len(),
{
    if updates.len() > 0 {
        let front = updates.drop_last();
        lemma_slot_is_greatest(current, front);
        assert forall|i: int| 0 <= i < updates.len() implies (#[trigger] updates[i]).slot
            <= slot_after(current, updates) by {
            if i < front.len() {
                assert(front[i] == updates[i]);
            }
        }
    }
}

/// An update that is not ahead of the current slot at the time it arrives
/// leaves no trace: the updates that follow it end where they would have
/// ended without it.
pub proof fn lemma_stale_update_has_no_effect(
    current: u64,
    before: Seq<SlotUpdateEvent>,
    stale: SlotUpdateEvent,
    after: Seq<SlotUpdateEvent>,
)
    requires
        stale.slot <= slot_after(current, before),
    ensures
        slot_after(current, before.push(stale) + after) == slot_after(current, before + after),
    decreases after.len(),
{
    if after.len() == 0 {
        assert(before.push(stale).drop_last() =~= before);
    } else {
        lemma_stale_update_has_no_effect(current, before, stale, after.drop_last());
        assert((before.push(stale) + after).drop_last() =~= before.push(stale)
            + after.drop_last());
        assert((before + after).drop_last() =~= before + after.drop_last());
    }
}

} // verus!
