//! Producers returning deferred constructors.
//!
//! These show the shapes a producer takes: the trivial wrap of a finished
//! value, an eager step followed by a deferred remainder, error handling
//! completed before the deferral point, and a structure whose fields are
//! themselves built in place by absorbed child constructors.

use vstd::prelude::*;

use crate::ctor::DeferredCtor;
use crate::dest::Destination;
use crate::layout::Layout;

verus! {

/// A small record built in place.
pub struct Foo {
    pub a: u64,
    pub b: &'static str,
}

/// A producer whose whole body is deferred: the record literal is converted
/// to a deferred constructor to satisfy the return type, so the value is
/// populated only once the destination is known.
pub fn create_foo() -> (c: DeferredCtor<Foo>)
    ensures
        c@.value.a == 123,
        c@.value.b@ == "hello"@,
        c@.resources == Seq::<u64>::empty(),
        c.wf(),
{
    DeferredCtor::wrap_as_constructor(Foo { a: 123, b: "hello" })
}

/// A value with one owned resource, identified by its ticket.
pub struct Thing {
    pub ticket: u64,
}

/// Errors a producer reports before the deferral point: afterwards nothing
/// can fail.
pub enum BuildError {
    InvalidSeed,
}

/// A producer with an explicit deferral boundary: the ticket is acquired
/// now — that code runs eagerly — and only the final construction of the
/// value, with the ticket captured, is deferred to the initializer.
pub fn create_thing(seed: u64) -> (c: DeferredCtor<Thing>)
    ensures
        c@.value == (Thing { ticket: seed }),
        c@.resources == seq![seed],
        c.wf(),
{
    let ticket = seed;
    let mut captured: Vec<u64> = Vec::new();
    captured.push(ticket);
    DeferredCtor::new(Thing { ticket }, captured)
}

/// A fallible producer: the validation runs now, and a deferred handle
/// exists only once it has passed — the code moved past the deferral point
/// always yields a valid value. Succeeds exactly on nonzero seeds.
pub fn try_create_thing(seed: u64) -> (r: Result<DeferredCtor<Thing>, BuildError>)
    ensures
        seed != 0 ==> (r matches Ok(c)
            && c@.value == (Thing { ticket: seed })
            && c@.resources == seq![seed]
            && c.wf()),
        seed == 0 ==> (r matches Err(e) && e == BuildError::InvalidSeed),
{
    if seed == 0 {
        Err(BuildError::InvalidSeed)
    } else {
        Ok(create_thing(seed))
    }
}

/// One field of [`Bar`].
pub struct Baz {
    pub weight: u64,
}

/// The other field of [`Bar`].
pub struct Quux {
    pub weight: u64,
}

/// An aggregate whose fields are built in place by child constructors.
pub struct Bar {
    pub baz: Baz,
    pub quux: Quux,
}

/// A fallible producer for the first field. Succeeds exactly on nonzero
/// weights.
pub fn create_baz(weight: u64) -> (r: Result<DeferredCtor<Baz>, BuildError>)
    ensures
        weight != 0 ==> (r matches Ok(c)
            && c@.value == (Baz { weight })
            && c@.resources == seq![weight]
            && c.wf()),
        weight == 0 ==> (r matches Err(e) && e == BuildError::InvalidSeed),
{
    if weight == 0 {
        Err(BuildError::InvalidSeed)
    } else {
        let mut captured: Vec<u64> = Vec::new();
        captured.push(weight);
        Ok(DeferredCtor::new(Baz { weight }, captured))
    }
}

/// A fallible producer for the second field. Succeeds exactly on nonzero
/// weights.
pub fn create_quux(weight: u64) -> (r: Result<DeferredCtor<Quux>, BuildError>)
    ensures
        weight != 0 ==> (r matches Ok(c)
            && c@.value == (Quux { weight })
            && c@.resources == seq![weight]
            && c.wf()),
        weight == 0 ==> (r matches Err(e) && e == BuildError::InvalidSeed),
{
    if weight == 0 {
        Err(BuildError::InvalidSeed)
    } else {
        let mut captured: Vec<u64> = Vec::new();
        captured.push(weight);
        Ok(DeferredCtor::new(Quux { weight }, captured))
    }
}

/// A constructor for [`Bar`] composed of one absorbed, unexecuted child per
/// field, kept in declaration order.
pub struct BarCtor {
    baz: DeferredCtor<Baz>,
    quux: DeferredCtor<Quux>,
}

impl BarCtor {
    /// The absorbed child for the first field.
    pub closed spec fn baz_child(self) -> DeferredCtor<Baz> {
        self.baz
    }

    /// The absorbed child for the second field.
    pub closed spec fn quux_child(self) -> DeferredCtor<Quux> {
        self.quux
    }

    /// The aggregate the composition will produce: each field equals its
    /// child's output.
    pub open spec fn produced(self) -> Bar {
        Bar { baz: self.baz_child()@.value, quux: self.quux_child()@.value }
    }

    /// The resources captured across both children, in declaration order.
    pub open spec fn resources(self) -> Seq<u64> {
        self.baz_child()@.resources + self.quux_child()@.resources
    }

    /// Absorbs the two children, unexecuted.
    pub fn compose(baz: DeferredCtor<Baz>, quux: DeferredCtor<Quux>) -> (c: BarCtor)
        ensures
            c.baz_child() == baz,
            c.quux_child() == quux,
    {
        BarCtor { baz, quux }
    }

    /// The descriptor of the aggregate, answered without executing anything.
    pub fn required_layout() -> (r: Layout)
        ensures
            r == Layout::spec_of::<Bar>(),
            r.well_formed(),
    {
        vstd::layout::layout_for_type_is_valid::<Bar>();
        Layout { size: core::mem::size_of::<Bar>(), align: core::mem::align_of::<Bar>() }
    }

    /// Invocation: the first child's plan runs, then the second's — the
    /// trace shows their environments consumed in that order — and the
    /// aggregate is assembled straight at the destination.
    pub fn invoke(self, dest: &mut Destination<Bar>, trace: &mut Vec<u64>)
        requires
            old(dest)@.contents is None,
            old(dest)@.layout == Layout::spec_of::<Bar>(),
        ensures
            final(dest)@.addr == old(dest)@.addr,
            final(dest)@.layout == old(dest)@.layout,
            final(dest)@.contents == Some(self.produced()),
            final(trace)@ == old(trace)@ + self.resources(),
    {
        let BarCtor { baz, quux } = self;
        let b = baz.run(trace);
        let q = quux.run(trace);
        dest.fill(Bar { baz: b, quux: q });
    }

    /// Releases the composition unexecuted: both children's resources come
    /// back, once each, with neither plan run.
    pub fn release(self) -> (r: Vec<u64>)
        ensures
            r@ == self.resources(),
    {
        let BarCtor { baz, quux } = self;
        let mut r = baz.release();
        let mut rest = quux.release();
        r.append(&mut rest);
        r
    }
}

/// A producer of a composed constructor: the fallible helpers run now, and
/// the two child handles they yield are absorbed — not executed — so the
/// whole of `Bar` is still built in place later, in one invocation. Succeeds
/// exactly when both helpers do.
pub fn create_bar(x: u64, y: u64) -> (r: Result<BarCtor, BuildError>)
    ensures
        x != 0 && y != 0 ==> (r matches Ok(c)
            && c.produced() == (Bar { baz: Baz { weight: x }, quux: Quux { weight: y } })
            && c.resources() == seq![x, y]),
        x == 0 || y == 0 ==> (r matches Err(e) && e == BuildError::InvalidSeed),
{
    let baz = match create_baz(x) {
        Ok(b) => b,
        Err(e) => {
            return Err(e);
        },
    };
    let quux = match create_quux(y) {
        Ok(q) => q,
        Err(e) => {
            return Err(e);
        },
    };
    let c = BarCtor::compose(baz, quux);
    proof {
        assert(c.resources() =~= seq![x, y]);
    }
    Ok(c)
}

} // verus!
