//! The pinned extension: address-stable destinations and self-reference.
//!
//! Once a destination is committed to a deferred constructor, its address is
//! final and stays valid for the produced value's lifetime. A plan invoked
//! there may therefore read the address and store copies of it inside the
//! value being built — including references to the value's own location, or
//! to a sibling's committed location.

use vstd::prelude::*;

use crate::dest::Destination;
use crate::dest::SlotAllocator;
use crate::layout::Layout;

verus! {

/// Marker a type carries to opt into pinned, self-referential construction.
/// The aliasing discipline that makes the stored addresses safe to follow is
/// validated outside this core.
pub struct PinnedMark;

/// How a link of a node under construction is to be resolved: to the node's
/// own eventual address, or to an address already committed elsewhere.
pub enum AddrRef {
    /// The destination address the plan is invoked at.
    OwnAddr,
    /// A fixed, already committed address.
    At(usize),
}

/// What a link resolves to once the destination address `own` is known.
pub open spec fn resolve(r: AddrRef, own: usize) -> usize {
    match r {
        AddrRef::OwnAddr => own,
        AddrRef::At(a) => a,
    }
}

/// An intrusive list node: both links hold addresses of list nodes. The
/// marker opts the type into address stability.
pub struct ListHead {
    pub prev: usize,
    pub next: usize,
    pub _pin: PinnedMark,
}

/// A deferred constructor for a [`ListHead`] whose links may refer to the
/// node's own destination: they are resolved only at invocation, when the
/// address is final.
pub struct ListHeadCtor {
    prev: AddrRef,
    next: AddrRef,
}

impl ListHeadCtor {
    /// The plan for the `prev` link.
    pub closed spec fn prev_plan(self) -> AddrRef {
        self.prev
    }

    /// The plan for the `next` link.
    pub closed spec fn next_plan(self) -> AddrRef {
        self.next
    }

    /// A constructor with the two link plans given.
    pub fn with_links(prev: AddrRef, next: AddrRef) -> (c: ListHeadCtor)
        ensures
            c.prev_plan() == prev,
            c.next_plan() == next,
    {
        ListHeadCtor { prev, next }
    }

    /// The descriptor of the node the constructor will produce, answered
    /// without executing it.
    pub fn required_layout() -> (r: Layout)
        ensures
            r == Layout::spec_of::<ListHead>(),
            r.well_formed(),
    {
        vstd::layout::layout_for_type_is_valid::<ListHead>();
        Layout { size: core::mem::size_of::<ListHead>(), align: core::mem::align_of::<ListHead>() }
    }

    /// Pinned invocation: the destination address is final, the plan reads
    /// it, resolves both links against it, and leaves the finished node at
    /// the destination. The handle is spent.
    pub fn invoke_at(self, dest: &mut Destination<ListHead>)
        requires
            old(dest)@.contents is None,
            old(dest)@.layout == Layout::spec_of::<ListHead>(),
        ensures
            final(dest)@.addr == old(dest)@.addr,
            final(dest)@.layout == old(dest)@.layout,
            final(dest)@.contents matches Some(h)
                && h.prev == resolve(self.prev_plan(), old(dest)@.addr)
                && h.next == resolve(self.next_plan(), old(dest)@.addr),
    {
        let own = dest.address();
        let prev = match self.prev {
            AddrRef::OwnAddr => own,
            AddrRef::At(a) => a,
        };
        let next = match self.next {
            AddrRef::OwnAddr => own,
            AddrRef::At(a) => a,
        };
        dest.fill(ListHead { prev, next, _pin: PinnedMark });
    }
}

impl ListHead {
    /// A node whose links both refer to its own eventual destination: a
    /// one-element ring, expressible only because the address is final
    /// before the plan runs.
    pub fn new() -> (c: ListHeadCtor)
        ensures
            c.prev_plan() == AddrRef::OwnAddr,
            c.next_plan() == AddrRef::OwnAddr,
    {
        ListHeadCtor::with_links(AddrRef::OwnAddr, AddrRef::OwnAddr)
    }
}

/// Builds a two-node ring: two destinations are committed first, then each
/// node's constructor captures the sibling's address and is invoked at its
/// own destination. Following the stored links from either node reaches the
/// other, and both stored addresses are exactly the two committed ones — no
/// dangling address exists.
pub fn build_ring(alloc: &mut SlotAllocator) -> (r: Option<
    (Destination<ListHead>, Destination<ListHead>),
>)
    requires
        old(alloc).wf(),
    ensures
        final(alloc)@.capacity == old(alloc)@.capacity,
        final(alloc).wf(),
        old(alloc)@.used + 2 <= old(alloc)@.capacity ==> ({
            &&& r matches Some((a, b))
            &&& final(alloc)@.used == old(alloc)@.used + 2
            &&& a@.addr != b@.addr
            &&& a@.contents matches Some(ha)
            &&& b@.contents matches Some(hb)
            &&& ha.prev == b@.addr
            &&& ha.next == b@.addr
            &&& hb.prev == a@.addr
            &&& hb.next == a@.addr
        }),
        old(alloc)@.used + 2 > old(alloc)@.capacity ==> (r is None && final(alloc)@.used == old(
            alloc,
        )@.used),
{
    if alloc.capacity() - alloc.used() >= 2 {
        let layout = ListHeadCtor::required_layout();
        let d0 = alloc.allocate::<ListHead>(layout);
        let d1 = alloc.allocate::<ListHead>(layout);
        match (d0, d1) {
            (Some(mut a), Some(mut b)) => {
                let addr_a = a.address();
                let addr_b = b.address();
                let ctor_a = ListHeadCtor::with_links(AddrRef::At(addr_b), AddrRef::At(addr_b));
                let ctor_b = ListHeadCtor::with_links(AddrRef::At(addr_a), AddrRef::At(addr_a));
                ctor_a.invoke_at(&mut a);
                ctor_b.invoke_at(&mut b);
                Some((a, b))
            },
            _ => vstd::pervasive::unreached(),
        }
    } else {
        None
    }
}

} // verus!
