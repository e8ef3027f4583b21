//! Deferred constructors and their composition.
//!
//! A [`DeferredCtor`] is an exclusively owned, move-only handle capturing an
//! unexecuted plan that produces exactly one value of a known type at a
//! caller-given destination. Every fallible step has already run before the
//! handle exists (the *deferral point*), so executing the plan cannot fail.
//! The handle is consumed by the single invocation that executes it, or
//! released unexecuted; ownership transfer makes a second invocation
//! impossible without any runtime flag.

use vstd::prelude::*;

use crate::dest::Destination;
use crate::layout::Layout;
use crate::layout::describe;

verus! {

/// Ghost model of a deferred constructor: the value its plan will produce,
/// the owned resources captured in its environment (by identifier), and the
/// descriptor it reports for the value it has not built yet.
pub ghost struct CtorModel<T> {
    pub value: T,
    pub resources: Seq<u64>,
    pub layout: Layout,
}

/// A deferred constructor: an unexecuted plan for one value of type `T`.
pub struct DeferredCtor<T> {
    value: T,
    captured: Vec<u64>,
    layout: Layout,
}

impl<T> View for DeferredCtor<T> {
    type V = CtorModel<T>;

    closed spec fn view(&self) -> CtorModel<T> {
        CtorModel { value: self.value, resources: self.captured@, layout: self.layout }
    }
}

impl<T> DeferredCtor<T> {
    /// The descriptor a constructor carries answers for the value it will
    /// produce, and agrees with the descriptor of the type.
    pub open spec fn wf(self) -> bool {
        &&& self@.layout == Layout::spec_of::<T>()
        &&& self@.layout.well_formed()
    }

    /// The trivial wrap of an already built value: the deferred plan merely
    /// places the value. Always available; captures no further resources.
    pub fn wrap_as_constructor(value: T) -> (c: DeferredCtor<T>)
        ensures
            c@.value == value,
            c@.resources == Seq::<u64>::empty(),
            c.wf(),
    {
        let layout = describe(&value);
        DeferredCtor { value, captured: Vec::new(), layout }
    }

    /// The deferral point: every fallible step has run, and the plan's
    /// environment — the finished ingredients of the future value together
    /// with the owned resources named in `captured` — is handed over.
    pub fn new(value: T, captured: Vec<u64>) -> (c: DeferredCtor<T>)
        ensures
            c@.value == value,
            c@.resources == captured@,
            c.wf(),
    {
        let layout = describe(&value);
        DeferredCtor { value, captured, layout }
    }

    /// Conversion to a plain value: executes the plan and consumes the
    /// handle. This is the only way from deferred back to direct.
    pub fn into_value(self) -> (r: T)
        ensures
            r == self@.value,
    {
        let DeferredCtor { value, captured: _, layout: _ } = self;
        value
    }

    /// Invocation at a destination: runs the captured plan with the
    /// destination as the implicit output slot and leaves the produced value
    /// there. The handle is spent; the destination keeps address and
    /// descriptor. Guaranteed to succeed: nothing fallible is left.
    pub fn invoke(self, dest: &mut Destination<T>)
        requires
            old(dest)@.contents is None,
            old(dest)@.layout == self@.layout,
        ensures
            final(dest)@.addr == old(dest)@.addr,
            final(dest)@.layout == old(dest)@.layout,
            final(dest)@.contents == Some(self@.value),
    {
        let v = self.into_value();
        dest.fill(v);
    }

    /// Executes the plan and records the consumption of its environment in
    /// `trace`: each captured resource identifier is appended, in order, as
    /// the plan uses it up.
    pub(crate) fn run(self, trace: &mut Vec<u64>) -> (r: T)
        ensures
            r == self@.value,
            final(trace)@ == old(trace)@ + self@.resources,
    {
        let DeferredCtor { value, mut captured, layout: _ } = self;
        trace.append(&mut captured);
        value
    }

    /// Releases the handle unexecuted: every resource captured in its
    /// environment is handed back, once each, and the plan never runs — not
    /// even partially, since no part of it is taken out of the handle.
    pub fn release(self) -> (r: Vec<u64>)
        ensures
            r@ == self@.resources,
    {
        let DeferredCtor { value: _, captured, layout: _ } = self;
        captured
    }
}

impl Layout {
    /// The descriptor of the value a deferred constructor will produce,
    /// answered without executing the constructor.
    pub fn for_inplace_value<T>(c: &DeferredCtor<T>) -> (r: Layout)
        ensures
            r == c@.layout,
    {
        c.layout
    }
}

/// Law: the descriptor of a constructor agrees with the descriptor of the
/// value it would produce — `describe` and `Layout::for_inplace_value` answer
/// alike for every well-formed handle, even though the value does not exist
/// yet.
pub proof fn lemma_describe_agrees<T>(c: DeferredCtor<T>)
    requires
        c.wf(),
    ensures
        c@.layout == Layout::spec_of::<T>(),
{
}

/// The resource identifiers captured by the first `n` constructors of `cs`,
/// in declaration order.
pub open spec fn resources_of_prefix<T>(cs: Seq<DeferredCtor<T>>, n: int) -> Seq<u64>
    decreases n,
{
    if n <= 0 {
        Seq::empty()
    } else {
        resources_of_prefix(cs, n - 1) + cs[n - 1]@.resources
    }
}

/// The resource identifiers captured by all constructors of `cs`, in order.
pub open spec fn resources_of<T>(cs: Seq<DeferredCtor<T>>) -> Seq<u64> {
    resources_of_prefix(cs, cs.len() as int)
}

/// The values the first `n` constructors of `cs` would produce, in order.
pub open spec fn values_of_prefix<T>(cs: Seq<DeferredCtor<T>>, n: int) -> Seq<T>
    decreases n,
{
    if n <= 0 {
        Seq::empty()
    } else {
        values_of_prefix(cs, n - 1).push(cs[n - 1]@.value)
    }
}

/// The values all constructors of `cs` would produce, in order.
pub open spec fn values_of<T>(cs: Seq<DeferredCtor<T>>) -> Seq<T> {
    values_of_prefix(cs, cs.len() as int)
}

/// A composed constructor: a deferred constructor built from child handles.
///
/// The composer absorbs each child unexecuted and records it in declaration
/// order; invoking the composition executes every child, first to last, and
/// assembles the aggregate directly at the destination.
pub struct ComposedCtor<T> {
    children: Vec<DeferredCtor<T>>,
}

impl<T> View for ComposedCtor<T> {
    type V = Seq<DeferredCtor<T>>;

    closed spec fn view(&self) -> Seq<DeferredCtor<T>> {
        self.children@
    }
}

impl<T> ComposedCtor<T> {
    /// Absorbs the child handles, unexecuted, in declaration order.
    pub fn compose(children: Vec<DeferredCtor<T>>) -> (c: ComposedCtor<T>)
        ensures
            c@ == children@,
    {
        ComposedCtor { children }
    }

    /// The descriptor of the aggregate the composition will produce.
    pub fn required_layout() -> (r: Layout)
        ensures
            r == Layout::spec_of::<Vec<T>>(),
            r.well_formed(),
    {
        vstd::layout::layout_for_type_is_valid::<Vec<T>>();
        Layout { size: core::mem::size_of::<Vec<T>>(), align: core::mem::align_of::<Vec<T>>() }
    }

    /// Invocation of the composition: executes every absorbed child in
    /// declaration order — the trace shows each child's environment consumed
    /// first to last — then leaves the aggregate, whose elements equal each
    /// child's output in that same order, at the destination.
    pub fn invoke(self, dest: &mut Destination<Vec<T>>, trace: &mut Vec<u64>)
        requires
            old(dest)@.contents is None,
            old(dest)@.layout == Layout::spec_of::<Vec<T>>(),
        ensures
            final(dest)@.addr == old(dest)@.addr,
            final(dest)@.layout == old(dest)@.layout,
            final(dest)@.contents matches Some(out) && out@ == values_of(self@),
            final(trace)@ == old(trace)@ + resources_of(self@),
    {
        let ComposedCtor { mut children } = self;
        let ghost orig: Seq<DeferredCtor<T>> = children@;
        let ghost t0: Seq<u64> = trace@;
        let mut out: Vec<T> = Vec::new();
        while children.len() > 0
            invariant
                out@.len() <= orig.len(),
                children@ == orig.skip(out@.len() as int),
                out@ == values_of_prefix(orig, out@.len() as int),
                trace@ == t0 + resources_of_prefix(orig, out@.len() as int),
            decreases children@.len(),
        {
            let ghost i: int = out@.len() as int;
            let child = children.remove(0);
            proof {
                assert(child == orig[i]);
                assert(children@ =~= orig.skip(i + 1));
            }
            let v = child.run(trace);
            out.push(v);
            proof {
                assert(trace@ =~= t0 + resources_of_prefix(orig, i + 1));
            }
        }
        proof {
            assert(out@.len() == orig.len());
        }
        dest.fill(out);
    }

    /// Releases the composition unexecuted: every resource captured by every
    /// absorbed child is handed back, once each, in order, and no child's
    /// plan runs at all.
    pub fn release(self) -> (r: Vec<u64>)
        ensures
            r@ == resources_of(self@),
    {
        let ComposedCtor { mut children } = self;
        let ghost orig: Seq<DeferredCtor<T>> = children@;
        let ghost total: usize = children.len();
        let mut out: Vec<u64> = Vec::new();
        let mut done: usize = 0;
        while children.len() > 0
            invariant
                total == orig.len(),
                done + children@.len() == total,
                children@ == orig.skip(done as int),
                out@ == resources_of_prefix(orig, done as int),
            decreases children@.len(),
        {
            let ghost i: int = done as int;
            let child = children.remove(0);
            proof {
                assert(child == orig[i]);
                assert(children@ =~= orig.skip(i + 1));
            }
            let mut r = child.release();
            out.append(&mut r);
            done = done + 1;
        }
        out
    }
}

} // verus!
