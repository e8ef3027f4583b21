//! Size/alignment descriptors: the storage requirement of a value, or of a
//! value that has not been built yet.

use vstd::prelude::*;

verus! {

/// Storage requirement of a value: a byte size and an alignment.
///
/// The descriptor is a pure query object: computing one never fails, and it
/// can be answered for a deferred constructor without executing it.
#[derive(Clone, Copy, PartialEq, Eq, Structural, Debug)]
pub struct Layout {
    pub size: usize,
    pub align: usize,
}

impl Layout {
    /// A descriptor is well formed when the alignment is a power of two (and
    /// so at least 1), the size is a multiple of the alignment, and the pair
    /// is one that real storage can satisfy.
    pub open spec fn well_formed(self) -> bool {
        &&& vstd::layout::valid_layout(self.size, self.align)
        &&& self.align >= 1
        &&& self.size as int % self.align as int == 0
    }

    /// The descriptor of the type `T`, as ghost data.
    pub open spec fn spec_of<T>() -> Layout {
        Layout {
            size: vstd::layout::size_of::<T>() as usize,
            align: vstd::layout::align_of::<T>() as usize,
        }
    }
}

/// Storage requirement of an already built value.
pub fn describe<T>(value: &T) -> (r: Layout)
    ensures
        r == Layout::spec_of::<T>(),
        r.well_formed(),
{
    vstd::layout::layout_for_type_is_valid::<T>();
    Layout { size: core::mem::size_of::<T>(), align: core::mem::align_of::<T>() }
}

} // verus!
