//! The slot that holds the handle of the running child, and the two
//! operations through which it is ever touched.

use vstd::prelude::*;

verus! {

/// One operation on the slot, as the boot flow or a shutdown trigger issues it.
pub enum SlotOp<H> {
    Publish(H),
    Terminate,
}

/// The slot after `publish`: it holds the new handle, whatever it held before.
pub open spec fn after_publish<H>(slot: Option<H>, handle: H) -> Option<H> {
    Some(handle)
}

/// The slot after `terminate`: always empty.
pub open spec fn after_terminate<H>(slot: Option<H>) -> Option<H> {
    None
}

/// The handle that `terminate` hands out to be killed and reaped: the one
/// that the slot held, if any.
pub open spec fn taken_by_terminate<H>(slot: Option<H>) -> Option<H> {
    slot
}

/// The slot after a sequence of operations, applied in order.
pub open spec fn slot_after<H>(slot: Option<H>, ops: Seq<SlotOp<H>>) -> Option<H>
    decreases ops.len(),
{
    if ops.len() == 0 {
        slot
    } else {
        let before = slot_after(slot, ops.drop_last());
        match ops.last() {
            SlotOp::Publish(h) => after_publish(before, h),
            SlotOp::Terminate => after_terminate(before),
        }
    }
}

/// The handles handed out for killing by a sequence of operations, in order.
pub open spec fn killed_by<H>(slot: Option<H>, ops: Seq<SlotOp<H>>) -> Seq<H>
    decreases ops.len(),
{
    if ops.len() == 0 {
        Seq::empty()
    } else {
        let before = slot_after(slot, ops.drop_last());
        let killed = killed_by(slot, ops.drop_last());
        match ops.last() {
            SlotOp::Publish(h) => killed,
            SlotOp::Terminate => match taken_by_terminate(before) {
                Some(h) => killed.push(h),
                None => killed,
            },
        }
    }
}

/// The handle that the operation at position `i` hands out for killing:
/// what a terminate finds in the slot after the operations before it, and
/// nothing for a publish.
pub open spec fn taken_at<H>(slot: Option<H>, ops: Seq<SlotOp<H>>, i: int) -> Option<H> {
    match ops[i] {
        SlotOp::Terminate => taken_by_terminate(slot_after(slot, ops.take(i))),
        SlotOp::Publish(_) => None,
    }
}

/// The number of `Publish` operations in a sequence.
pub open spec fn publish_count<H>(ops: Seq<SlotOp<H>>) -> nat
    decreases ops.len(),
{
    if ops.len() == 0 {
        0
    } else {
        publish_count(ops.drop_last()) + if ops.last() is Publish { 1nat } else { 0nat }
    }
}

/// The one slot for the handle of the live child. The handle type is left to
/// the caller; the slot never looks inside it.
pub struct SupervisorState<H> {
    slot: Option<H>,
}

impl<H> SupervisorState<H> {
    /// What the slot holds.
    pub closed spec fn held(&self) -> Option<H> {
        self.slot
    }

    /// A slot with no child in it.
    pub fn new() -> (state: Self)
        ensures
            state.held() is None,
    {
        SupervisorState { slot: None }
    }

    /// Whether no child is held.
    pub fn is_empty(&self) -> (empty: bool)
        ensures
            empty == (self.held() is None),
    {
        self.slot.is_none()
    }

    /// Stores `handle`, overwriting what was there. The displaced handle, if
    /// any, is returned untouched: it is not killed.
    pub fn publish(&mut self, handle: H) -> (displaced: Option<H>)
        ensures
            final(self).held() == after_publish(old(self).held(), handle),
            displaced == old(self).held(),
    {
        let displaced = self.slot.take();
        self.slot = Some(handle);
        displaced
    }

    /// Takes the handle out and leaves the slot empty. The caller kills and
    /// reaps the returned handle; `None` means there is nothing to do.
    pub fn terminate(&mut self) -> (taken: Option<H>)
        ensures
            final(self).held() == after_terminate(old(self).held()),
            taken == taken_by_terminate(old(self).held()),
    {
        self.slot.take()
    }
}

/// Terminating twice in a row, from any slot, kills at most once: the first
/// call hands out what was held, the second finds the slot empty, hands out
/// nothing and leaves the slot as it found it.
pub proof fn terminate_is_idempotent<H>(slot: Option<H>)
    ensures
        taken_by_terminate(slot) == slot,
        after_terminate(slot) is None,
        taken_by_terminate(after_terminate(slot)) is None,
        after_terminate(after_terminate(slot)) == after_terminate(slot),
        slot_after(slot, seq![SlotOp::<H>::Terminate, SlotOp::<H>::Terminate]) is None,
        killed_by(slot, seq![SlotOp::<H>::Terminate, SlotOp::<H>::Terminate]).len()
            == (if slot is Some { 1nat } else { 0nat }),
{
    let two = seq![SlotOp::<H>::Terminate, SlotOp::<H>::Terminate];
    let one = seq![SlotOp::<H>::Terminate];
    assert(two.drop_last() =~= one);
    assert(one.drop_last() =~= Seq::<SlotOp<H>>::empty());
    reveal_with_fuel(slot_after, 3);
    reveal_with_fuel(killed_by, 3);
}

/// Any number of terminates that race for the slot kill at most once. Each
/// takes the slot as one step, so they happen in some order, and in every
/// order the first finds what the slot held and each later one finds it
/// empty and does nothing; the slot ends empty.
pub proof fn racing_terminates_kill_once<H>(slot: Option<H>, ops: Seq<SlotOp<H>>)
    requires
        ops.len() >= 1,
        forall|i: int| 0 <= i < ops.len() ==> ops[i] is Terminate,
    ensures
        slot_after(slot, ops) is None,
        taken_at(slot, ops, 0) == slot,
        forall|i: int| 1 <= i < ops.len() ==> taken_at(slot, ops, i) is None,
        killed_by(slot, ops) == (match slot {
            Some(handle) => seq![handle],
            None => Seq::empty(),
        }),
    decreases ops.len(),
{
    assert(ops.take(0) =~= Seq::<SlotOp<H>>::empty());
    assert forall|i: int| 1 <= i < ops.len() implies taken_at(slot, ops, i) is None by {
        assert(ops.take(i).last() == ops[i - 1]);
    }
    if ops.len() == 1 {
        assert(ops.drop_last() =~= Seq::<SlotOp<H>>::empty());
        assert(ops.last() is Terminate);
        reveal_with_fuel(slot_after, 2);
        reveal_with_fuel(killed_by, 2);
        assert(killed_by(slot, ops) =~= (match slot {
            Some(handle) => seq![handle],
            None => Seq::empty(),
        }));
    } else {
        racing_terminates_kill_once(slot, ops.drop_last());
    }
}

/// Whatever was done before, once the last operation is a terminate the slot
/// is empty.
pub proof fn terminate_last_leaves_empty<H>(slot: Option<H>, ops: Seq<SlotOp<H>>)
    requires
        ops.len() > 0,
        ops.last() is Terminate,
    ensures
        slot_after(slot, ops) is None,
{
}

/// A publish that is followed by a terminate is torn down by it: the slot
/// ends empty and the published handle is the one handed out for killing.
pub proof fn publish_then_terminate<H>(slot: Option<H>, handle: H)
    ensures
        slot_after(slot, seq![SlotOp::Publish(handle), SlotOp::Terminate]) is None,
        killed_by(slot, seq![SlotOp::Publish(handle), SlotOp::Terminate]) == seq![handle],
{
    let both = seq![SlotOp::Publish(handle), SlotOp::Terminate];
    let first = seq![SlotOp::Publish(handle)];
    assert(both.drop_last() =~= first);
    assert(first.drop_last() =~= Seq::<SlotOp<H>>::empty());
    reveal_with_fuel(slot_after, 3);
    reveal_with_fuel(killed_by, 3);
    assert(killed_by(slot, both) =~= seq![handle]);
}

/// A publish that comes after the terminate is not torn down by it: the
/// handle stays in the slot, unkilled, until a later terminate takes it.
pub proof fn terminate_then_publish<H>(slot: Option<H>, handle: H)
    ensures
        slot_after(slot, seq![SlotOp::Terminate, SlotOp::Publish(handle)]) == Some(handle),
        !killed_by(slot, seq![SlotOp::Terminate, SlotOp::Publish(handle)]).contains(handle) || slot
            == Some(handle),
        slot_after(slot, seq![SlotOp::Terminate, SlotOp::Publish(handle), SlotOp::Terminate])
            is None,
{
    let three = seq![SlotOp::Terminate, SlotOp::Publish(handle), SlotOp::Terminate];
    let both = seq![SlotOp::Terminate, SlotOp::Publish(handle)];
    let first = seq![SlotOp::<H>::Terminate];
    assert(three.drop_last() =~= both);
    assert(both.drop_last() =~= first);
    assert(first.drop_last() =~= Seq::<SlotOp<H>>::empty());
    reveal_with_fuel(slot_after, 4);
    reveal_with_fuel(killed_by, 4);
    let killed = killed_by(slot, both);
    assert(killed =~= match slot {
        Some(h) => seq![h],
        None => Seq::empty(),
    });
    if killed.contains(handle) {
        assert(killed[0] == handle);
    }
}

/// No handle is killed that was not held: over any interleaving of publishes
/// and terminates, the kills number at most the publishes, plus one if the
/// slot was full at the start.
pub proof fn kills_never_exceed_publishes<H>(slot: Option<H>, ops: Seq<SlotOp<H>>)
    ensures
        killed_by(slot, ops).len() + (if slot_after(slot, ops) is Some { 1nat } else { 0nat })
            <= publish_count(ops) + (if slot is Some { 1nat } else { 0nat }),
    decreases ops.len(),
{
    if ops.len() > 0 {
        kills_never_exceed_publishes(slot, ops.drop_last());
    }
}

} // verus!
