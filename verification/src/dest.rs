//! Destinations and the allocator collaborator.
//!
//! A [`Destination`] is caller-owned, already-allocated storage identified by
//! an address and a descriptor. It is exclusively held by whichever code
//! currently drives construction. Storage is obtained from a
//! [`SlotAllocator`], which stands for the external allocator collaborator:
//! it turns a descriptor into storage, or reports that none is available.

use vstd::prelude::*;

use crate::layout::Layout;

verus! {

/// Ghost model of a destination: its fixed address, its descriptor, and what
/// (if anything) has been constructed there.
pub ghost struct DestModel<T> {
    pub addr: usize,
    pub layout: Layout,
    pub contents: Option<T>,
}

/// Caller-owned storage for exactly one value of type `T`.
///
/// The address is fixed when the destination is handed out and never changes
/// afterwards, so a plan invoked at this destination may store copies of the
/// address inside the value it builds.
pub struct Destination<T> {
    addr: usize,
    layout: Layout,
    contents: Option<T>,
}

impl<T> View for Destination<T> {
    type V = DestModel<T>;

    closed spec fn view(&self) -> DestModel<T> {
        DestModel { addr: self.addr, layout: self.layout, contents: self.contents }
    }
}

impl<T> Destination<T> {
    /// The address of the storage. It is final: it stays valid and unchanged
    /// for the lifetime of the destination.
    pub fn address(&self) -> (r: usize)
        ensures
            r == self@.addr,
    {
        self.addr
    }

    /// The descriptor the storage was allocated for.
    pub fn descriptor(&self) -> (r: Layout)
        ensures
            r == self@.layout,
    {
        self.layout
    }

    /// Borrows whatever has been constructed at this destination so far.
    pub fn peek(&self) -> (r: &Option<T>)
        ensures
            *r == self@.contents,
    {
        &self.contents
    }

    /// Moves the constructed value out of the storage.
    pub fn take_value(self) -> (r: T)
        requires
            self@.contents is Some,
        ensures
            self@.contents == Some(r),
    {
        match self.contents {
            Some(v) => v,
            None => vstd::pervasive::unreached(),
        }
    }

    /// Borrows the constructed value.
    pub fn borrow_value(&self) -> (r: &T)
        requires
            self@.contents is Some,
        ensures
            self@.contents == Some(*r),
    {
        match &self.contents {
            Some(v) => v,
            None => vstd::pervasive::unreached(),
        }
    }

    /// Writes the finished value into the empty storage. Only construction
    /// drivers inside this crate do this; the address and descriptor are
    /// untouched.
    pub(crate) fn fill(&mut self, value: T)
        requires
            old(self)@.contents is None,
        ensures
            final(self)@.addr == old(self)@.addr,
            final(self)@.layout == old(self)@.layout,
            final(self)@.contents == Some(value),
    {
        self.contents = Some(value);
    }
}

/// Ghost model of the allocator: how many slots it may still hand out.
pub ghost struct AllocModel {
    pub capacity: usize,
    pub used: usize,
}

/// A bounded allocator handing out destinations one slot at a time.
///
/// It stands for the external allocator collaborator of the construction
/// protocol: `allocate` answers a descriptor with storage, or with nothing
/// once the capacity is exhausted. Addresses are slot indices, so two
/// destinations handed out by one allocator never share an address.
pub struct SlotAllocator {
    cap: usize,
    cnt: usize,
}

impl View for SlotAllocator {
    type V = AllocModel;

    closed spec fn view(&self) -> AllocModel {
        AllocModel { capacity: self.cap, used: self.cnt }
    }
}

impl SlotAllocator {
    /// An allocator never hands out more slots than its capacity.
    pub open spec fn wf(self) -> bool {
        self@.used <= self@.capacity
    }

    /// A fresh allocator with the given number of slots.
    pub fn new(capacity: usize) -> (r: SlotAllocator)
        ensures
            r@.capacity == capacity,
            r@.used == 0,
            r.wf(),
    {
        SlotAllocator { cap: capacity, cnt: 0 }
    }

    /// How many slots this allocator was created with.
    pub fn capacity(&self) -> (r: usize)
        ensures
            r == self@.capacity,
    {
        self.cap
    }

    /// How many slots have been handed out.
    pub fn used(&self) -> (r: usize)
        ensures
            r == self@.used,
    {
        self.cnt
    }

    /// Turns a descriptor into storage: a fresh, empty destination while a
    /// slot is free, and nothing once the capacity is exhausted.
    pub fn allocate<T>(&mut self, layout: Layout) -> (r: Option<Destination<T>>)
        requires
            layout.well_formed(),
        ensures
            final(self)@.capacity == old(self)@.capacity,
            old(self)@.used < old(self)@.capacity ==> (r matches Some(d)
                && d@.addr == old(self)@.used
                && d@.layout == layout
                && d@.contents is None
                && final(self)@.used == old(self)@.used + 1),
            old(self)@.used >= old(self)@.capacity ==> (r is None
                && final(self)@.used == old(self)@.used),
            old(self).wf() ==> final(self).wf(),
    {
        if self.cnt < self.cap {
            let addr = self.cnt;
            self.cnt = self.cnt + 1;
            Some(Destination { addr, layout, contents: None })
        } else {
            None
        }
    }
}

} // verus!
