//! Containers integrated with the construction protocol.
//!
//! Both containers follow the fixed sequence: query the descriptor, obtain
//! storage, materialize — and on absent storage discard the pending
//! constructor unexecuted.

use vstd::prelude::*;

use crate::ctor::DeferredCtor;
use crate::dest::Destination;
use crate::dest::SlotAllocator;
use crate::driver::MaterializeOutcome;
use crate::driver::materialize;
use crate::dual::DualValue;
use crate::layout::Layout;

verus! {

/// The single failure a container operation can report: storage could not be
/// obtained. The resources a pending constructor had captured were released,
/// once each, without the plan ever running; their identifiers are carried
/// here.
pub enum InplaceError {
    AllocationAbsent { released: Vec<u64> },
}

/// A growable sequence accepting values through the dual-mode wrapper.
pub struct InplaceVec<T> {
    items: Vec<T>,
}

impl<T> View for InplaceVec<T> {
    type V = Seq<T>;

    closed spec fn view(&self) -> Seq<T> {
        self.items@
    }
}

impl<T> InplaceVec<T> {
    /// An empty container.
    pub fn new() -> (r: InplaceVec<T>)
        ensures
            r@ == Seq::<T>::empty(),
    {
        InplaceVec { items: Vec::new() }
    }

    /// Number of elements held.
    pub fn len(&self) -> (n: usize)
        ensures
            n == self@.len(),
    {
        self.items.len()
    }

    /// Borrows the element at `i`.
    pub fn index(&self, i: usize) -> (r: &T)
        requires
            i < self@.len(),
        ensures
            *r == self@[i as int],
    {
        &self.items[i]
    }

    /// The specialized path for an already built value: ordinary move.
    pub fn push_direct(&mut self, value: T)
        ensures
            final(self)@ == old(self)@.push(value),
    {
        self.items.push(value);
    }

    /// The specialized path for a deferred constructor: the plan is executed
    /// at the newly appended slot, and the handle is consumed.
    pub fn push_deferred(&mut self, ctor: DeferredCtor<T>)
        ensures
            final(self)@ == old(self)@.push(ctor@.value),
    {
        self.items.push(ctor.into_value());
    }

    /// One entry point for both cases: dispatches on the tag to the two
    /// specialized paths, which are observably equivalent but for when and
    /// where construction happens.
    pub fn push(&mut self, value: DualValue<T>)
        ensures
            final(self)@ == old(self)@.push(value.produced()),
    {
        match value {
            DualValue::Direct(v) => self.push_direct(v),
            DualValue::Deferred(c) => self.push_deferred(c),
        }
    }

    /// Appending under fallible allocation: the descriptor is queried first,
    /// the allocator is asked for storage, and the value is materialized
    /// there. Succeeds exactly while the allocator has a slot free; when it
    /// has none the container is unchanged and every resource the value had
    /// captured is handed back in the error, the plan never partially run.
    pub fn try_push(&mut self, value: DualValue<T>, alloc: &mut SlotAllocator) -> (r: Result<
        (),
        InplaceError,
    >)
        requires
            value.wf(),
        ensures
            final(alloc)@.capacity == old(alloc)@.capacity,
            old(alloc).wf() ==> final(alloc).wf(),
            old(alloc)@.used < old(alloc)@.capacity ==> (r is Ok
                && final(self)@ == old(self)@.push(value.produced())
                && final(alloc)@.used == old(alloc)@.used + 1),
            old(alloc)@.used >= old(alloc)@.capacity ==> (r matches Err(
                InplaceError::AllocationAbsent { released },
            ) && released@ == value.resources()
                && final(self)@ == old(self)@
                && final(alloc)@.used == old(alloc)@.used),
    {
        let layout = Layout::for_maybe_inplace_value(&value);
        let storage = alloc.allocate::<T>(layout);
        match materialize(value, storage) {
            MaterializeOutcome::Completed(dest) => {
                self.items.push(dest.take_value());
                Ok(())
            },
            MaterializeOutcome::AllocationAbsent { released } => {
                Err(InplaceError::AllocationAbsent { released })
            },
        }
    }
}

/// Law: inserting an equivalent logical value directly or through a deferred
/// constructor leaves equal containers — the two paths agree on the resulting
/// contents whenever the constructor would produce the very value inserted
/// directly.
pub proof fn lemma_dual_paths_agree<T>(s: Seq<T>, v: T, c: DeferredCtor<T>)
    requires
        c@.value == v,
    ensures
        s.push(DualValue::Direct(v).produced()) == s.push(DualValue::Deferred(c).produced()),
{
}

/// A container keeping each element in the destination it was constructed
/// at, backed by its own bounded allocator.
pub struct DstArray<T> {
    cells: Vec<Destination<T>>,
    alloc: SlotAllocator,
}

impl<T> View for DstArray<T> {
    type V = Seq<T>;

    closed spec fn view(&self) -> Seq<T> {
        Seq::new(self.cells@.len(), |i: int| self.cells@[i]@.contents->Some_0)
    }
}

impl<T> DstArray<T> {
    /// Every cell holds a constructed value, cells sit at consecutive
    /// addresses, and the allocator's accounting matches the contents.
    pub closed spec fn wf(self) -> bool {
        &&& forall|i: int|
            0 <= i < self.cells@.len() ==> (#[trigger] self.cells@[i])@.contents is Some
        &&& forall|i: int| 0 <= i < self.cells@.len() ==> (#[trigger] self.cells@[i])@.addr == i
        &&& self.alloc@.used == self.cells@.len()
        &&& self.alloc.wf()
    }

    /// How many elements the array can ever hold.
    pub closed spec fn capacity(self) -> usize {
        self.alloc@.capacity
    }

    /// An empty array over a fresh allocator of `capacity` slots.
    pub fn new(capacity: usize) -> (r: DstArray<T>)
        ensures
            r@ == Seq::<T>::empty(),
            r.wf(),
            r.capacity() == capacity,
    {
        let r = DstArray { cells: Vec::new(), alloc: SlotAllocator::new(capacity) };
        proof {
            assert(r@ =~= Seq::<T>::empty());
        }
        r
    }

    /// Number of elements held.
    pub fn len(&self) -> (n: usize)
        ensures
            n == self@.len(),
    {
        self.cells.len()
    }

    /// Borrows the element at `i`, straight from the destination it was
    /// constructed at.
    pub fn get(&self, i: usize) -> (r: &T)
        requires
            self.wf(),
            i < self@.len(),
        ensures
            *r == self@[i as int],
    {
        self.cells[i].borrow_value()
    }

    /// Appends through the dual-mode wrapper: descriptor, then storage, then
    /// materialization at the new cell. Returns whether storage was found;
    /// when it was not, the array is unchanged and a pending constructor was
    /// discarded unexecuted, its resources released by ordinary ownership.
    pub fn append(&mut self, value: DualValue<T>) -> (ok: bool)
        requires
            old(self).wf(),
            value.wf(),
        ensures
            final(self).wf(),
            final(self).capacity() == old(self).capacity(),
            ok <==> old(self)@.len() < old(self).capacity(),
            ok ==> final(self)@ == old(self)@.push(value.produced()),
            !ok ==> final(self)@ == old(self)@,
    {
        let layout = Layout::for_maybe_inplace_value(&value);
        let storage = self.alloc.allocate::<T>(layout);
        match materialize(value, storage) {
            MaterializeOutcome::Completed(dest) => {
                self.cells.push(dest);
                proof {
                    assert(self@ =~= old(self)@.push(value.produced()));
                }
                true
            },
            MaterializeOutcome::AllocationAbsent { released: _ } => {
                proof {
                    assert(self@ =~= old(self)@);
                }
                false
            },
        }
    }
}

} // verus!
