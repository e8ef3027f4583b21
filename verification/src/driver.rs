//! The construction driver: places a dual value into storage the container
//! already obtained, or discards the value unexecuted when no storage came.

use vstd::prelude::*;

use crate::dest::Destination;
use crate::dual::DualValue;

verus! {

/// What driving a construction came to.
pub enum MaterializeOutcome<T> {
    /// The destination now holds the value.
    Completed(Destination<T>),
    /// No storage was available. The value was never constructed; every
    /// resource a deferred constructor had captured is handed back here,
    /// once each, with the plan never partially run.
    AllocationAbsent { released: Vec<u64> },
}

/// Drives one construction. `storage` is what the allocator collaborator
/// answered: the driver itself never allocates, and never fails when given a
/// destination — absence of storage is decided upstream.
///
/// With storage present, a direct value is moved into the destination and a
/// deferred constructor is invoked with the destination as its output slot;
/// both leave a value observably equal to the one the wrapper stands for.
/// With storage absent, the wrapper is released unexecuted.
pub fn materialize<T>(value: DualValue<T>, storage: Option<Destination<T>>) -> (r:
    MaterializeOutcome<T>)
    requires
        storage matches Some(d) ==> d@.contents is None && d@.layout == value.layout(),
    ensures
        storage matches Some(d) ==> (r matches MaterializeOutcome::Completed(out)
            && out@.addr == d@.addr
            && out@.layout == d@.layout
            && out@.contents == Some(value.produced())),
        storage is None ==> (r matches MaterializeOutcome::AllocationAbsent { released }
            && released@ == value.resources()),
{
    match storage {
        None => MaterializeOutcome::AllocationAbsent { released: value.release() },
        Some(mut dest) => {
            match value {
                DualValue::Direct(v) => dest.fill(v),
                DualValue::Deferred(c) => c.invoke(&mut dest),
            }
            MaterializeOutcome::Completed(dest)
        },
    }
}

/// Writes a dual value into an empty location the caller already owns — for
/// instance a structure member — with no storage to acquire: the direct case
/// moves the value in, the deferred case executes the plan at the location.
pub fn push<T>(slot: &mut Option<T>, value: DualValue<T>)
    requires
        (*old(slot)) is None,
    ensures
        (*final(slot)) == Some(value.produced()),
{
    match value {
        DualValue::Direct(v) => {
            *slot = Some(v);
        },
        DualValue::Deferred(c) => {
            *slot = Some(c.into_value());
        },
    }
}

} // verus!
