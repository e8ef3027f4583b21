//! The dual-mode wrapper: one API boundary for both an already built value
//! and a deferred constructor.
//!
//! A [`DualValue`] holds exactly one of the two. A direct value can always be
//! turned into a deferred one by the trivial wrap; the other direction
//! executes the constructor.

use vstd::prelude::*;

use crate::ctor::DeferredCtor;
use crate::layout::Layout;
use crate::layout::describe;

verus! {

/// A tagged choice between an already built value and a deferred constructor
/// for one, so a single logical operation serves both cases.
pub enum DualValue<T> {
    /// An already built value, handled with ordinary move semantics.
    Direct(T),
    /// An unexecuted plan for the value.
    Deferred(DeferredCtor<T>),
}

impl<T> DualValue<T> {
    /// The value this wrapper stands for: the direct value itself, or the
    /// value the deferred plan would produce.
    pub open spec fn produced(self) -> T {
        match self {
            DualValue::Direct(v) => v,
            DualValue::Deferred(c) => c@.value,
        }
    }

    /// The owned resources still captured behind this wrapper: none for a
    /// direct value, the constructor's environment for a deferred one.
    pub open spec fn resources(self) -> Seq<u64> {
        match self {
            DualValue::Direct(_) => Seq::empty(),
            DualValue::Deferred(c) => c@.resources,
        }
    }

    /// The descriptor of the value this wrapper stands for.
    pub open spec fn layout(self) -> Layout {
        match self {
            DualValue::Direct(_) => Layout::spec_of::<T>(),
            DualValue::Deferred(c) => c@.layout,
        }
    }

    /// A deferred constructor inside the wrapper reports the descriptor of
    /// the type it will produce.
    pub open spec fn wf(self) -> bool {
        self matches DualValue::Deferred(c) ==> c.wf()
    }

    /// The direct-to-deferred conversion, always available: a direct value is
    /// wrapped by the trivial plan, a deferred one is kept as it is.
    pub fn defer(self) -> (r: DualValue<T>)
        requires
            self.wf(),
        ensures
            r is Deferred,
            r.produced() == self.produced(),
            r.resources() == self.resources(),
            r.layout() == self.layout(),
            r.wf(),
    {
        match self {
            DualValue::Direct(v) => DualValue::Deferred(DeferredCtor::wrap_as_constructor(v)),
            DualValue::Deferred(c) => DualValue::Deferred(c),
        }
    }

    /// A producer's boundary with the static-deferral oracle, whose
    /// certification arrives as a plain answer: a certified expression
    /// yields a deferred constructor, while without certification the value
    /// is produced eagerly and wrapped as direct. Either way the wrapper
    /// stands for the same value.
    pub fn wrap_with_certificate(value: T, certified: bool) -> (r: DualValue<T>)
        ensures
            r.produced() == value,
            r.resources() == Seq::<u64>::empty(),
            certified ==> r is Deferred,
            !certified ==> r == DualValue::Direct(value),
            r.wf(),
    {
        if certified {
            DualValue::Deferred(DeferredCtor::wrap_as_constructor(value))
        } else {
            DualValue::Direct(value)
        }
    }

    /// Releases the wrapper without constructing anything: a deferred
    /// constructor hands back every captured resource, once each, with its
    /// plan never run; a direct value is dropped by ordinary ownership.
    pub fn release(self) -> (r: Vec<u64>)
        ensures
            r@ == self.resources(),
    {
        match self {
            DualValue::Direct(_) => Vec::new(),
            DualValue::Deferred(c) => c.release(),
        }
    }
}

impl Layout {
    /// The descriptor of the value a dual wrapper stands for, answered by the
    /// tag: an already built value is measured, a deferred constructor is
    /// asked without being executed.
    pub fn for_maybe_inplace_value<T>(value: &DualValue<T>) -> (r: Layout)
        ensures
            r == value.layout(),
            value.wf() ==> r.well_formed(),
    {
        match value {
            DualValue::Direct(v) => describe(v),
            DualValue::Deferred(c) => Layout::for_inplace_value(c),
        }
    }
}

} // verus!
