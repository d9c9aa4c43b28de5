//! Device memory types and memory-type selection.
//!
//! A device reports a list of memory types, each described by a word of
//! property-flag bits. Allocating a buffer requires picking a memory type
//! whose index is admitted by the device's type-filter bitmask and whose
//! property flags contain every requested flag. Selection is a linear scan
//! that returns the first acceptable index.

use vstd::prelude::*;

verus! {

/// Memory resides on the device itself.
pub const MEMORY_DEVICE_LOCAL: u32 = 0x1;
/// Memory can be mapped into host address space.
pub const MEMORY_HOST_VISIBLE: u32 = 0x2;
/// Host writes become visible to the device without explicit flushes.
pub const MEMORY_HOST_COHERENT: u32 = 0x4;

/// Snapshot of the memory types a physical device reports: one property-flag
/// word per type, in the device's order. A device reports at most 32 types,
/// one per bit of a type-filter bitmask.
pub struct MemoryProperties {
    pub types: Vec<u32>,
}

/// Every requested flag bit is present in `flags`.
pub open spec fn flags_contain(flags: u32, required: u32) -> bool {
    flags & required == required
}

/// Bit `i` of the type-filter bitmask admits memory type `i`.
pub open spec fn filter_admits(type_filter: u32, i: int) -> bool {
    0 <= i < 32 && type_filter & (1u32 << (i as u32)) != 0
}

/// Memory type `i` is acceptable: admitted by the filter and carrying every
/// required property flag.
pub open spec fn type_acceptable(types: Seq<u32>, type_filter: u32, required: u32, i: int) -> bool {
    &&& 0 <= i < types.len()
    &&& filter_admits(type_filter, i)
    &&& flags_contain(types[i], required)
}

/// Some memory type satisfies the filter and the required flags.
pub open spec fn has_matching_type(types: Seq<u32>, type_filter: u32, required: u32) -> bool {
    exists|i: int| type_acceptable(types, type_filter, required, i)
}

/// `r` is exactly what the selection scan returns: the first acceptable
/// index, or nothing when no index is acceptable.
pub open spec fn is_selected_type(
    types: Seq<u32>,
    type_filter: u32,
    required: u32,
    r: Option<u32>,
) -> bool {
    match r {
        Some(i) => type_acceptable(types, type_filter, required, i as int)
            && (forall|j: int| 0 <= j < i ==> !type_acceptable(types, type_filter, required, j)),
        None => forall|j: int| !type_acceptable(types, type_filter, required, j),
    }
}

impl MemoryProperties {
    /// The snapshot is well formed: the device reports at most 32 types.
    pub open spec fn wf(self) -> bool {
        self.types@.len() <= 32
    }
}

/// Linearly scan the device's memory types and return the first index that
/// the type-filter bitmask admits and whose property flags contain all of
/// `required`; return `None` when no type qualifies.
pub fn find_memory_type(
    memory_properties: &MemoryProperties,
    type_filter: u32,
    required: u32,
) -> (r: Option<u32>)
    requires
        memory_properties.wf(),
    ensures
        is_selected_type(memory_properties.types@, type_filter, required, r),
{
    let n = memory_properties.types.len();
    let mut i: usize = 0;
    while i < n
        invariant
            n == memory_properties.types@.len(),
            n <= 32,
            i <= n,
            forall|j: int|
                0 <= j < i ==> !type_acceptable(memory_properties.types@, type_filter, required, j),
        decreases n - i,
    {
        if (type_filter & (1u32 << (i as u32))) > 0
            && (memory_properties.types[i] & required) == required {
            return Some(i as u32);
        }
        i = i + 1;
    }
    None
}

/// Law: memory-type selection is deterministic. Any two results that both
/// satisfy the first-match characterization for the same type list, filter
/// bitmask and property-flag requirement are the same result.
pub proof fn lemma_selection_deterministic(
    types: Seq<u32>,
    type_filter: u32,
    required: u32,
    r1: Option<u32>,
    r2: Option<u32>,
)
    requires
        is_selected_type(types, type_filter, required, r1),
        is_selected_type(types, type_filter, required, r2),
    ensures
        r1 == r2,
{
    match (r1, r2) {
        (Some(i1), Some(i2)) => {
            if i1 < i2 {
                assert(!type_acceptable(types, type_filter, required, i1 as int));
            } else if i2 < i1 {
                assert(!type_acceptable(types, type_filter, required, i2 as int));
            }
        }
        (Some(i1), None) => {
            assert(!type_acceptable(types, type_filter, required, i1 as int));
        }
        (None, Some(i2)) => {
            assert(!type_acceptable(types, type_filter, required, i2 as int));
        }
        (None, None) => {}
    }
}

} // verus!
