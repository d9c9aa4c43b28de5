//! The logical-device capability the core works against.
//!
//! The bootstrap collaborator hands the core a device: its memory-type
//! snapshot, the memory-requirement type mask it reports for the buffer class
//! this system allocates, and a source of fresh object handles. Handles are
//! opaque words; the model device hands them out in sequence so that every
//! created object is distinguishable.

use vstd::prelude::*;

use crate::memory::MemoryProperties;

verus! {

/// A logical device as the core sees it: memory properties, the type mask
/// for buffer allocations, and a fresh-handle counter.
pub struct Device {
    /// Memory types the physical device reports.
    pub memory: MemoryProperties,
    /// Type-filter bitmask the device reports in the memory requirements of
    /// the buffers this system creates (one visibility class, so one mask).
    pub buffer_type_bits: u32,
    /// Next unused object handle.
    pub next_handle: u64,
}

impl Device {
    pub open spec fn wf(self) -> bool {
        self.memory.wf()
    }

    /// `n` more handles can be drawn from the counter without wrapping.
    pub open spec fn handles_left(self, n: int) -> bool {
        self.next_handle + n <= u64::MAX
    }

    /// Package the values the bootstrap collaborator provides.
    pub fn new(memory: MemoryProperties, buffer_type_bits: u32) -> (d: Device)
        requires
            memory.wf(),
        ensures
            d.wf(),
            d.memory == memory,
            d.buffer_type_bits == buffer_type_bits,
            d.next_handle == 1u64,
    {
        Device { memory, buffer_type_bits, next_handle: 1 }
    }

    /// Draw one fresh handle.
    pub fn fresh_handle(&mut self) -> (h: u64)
        requires
            old(self).handles_left(1),
        ensures
            h == old(self).next_handle,
            final(self).next_handle == old(self).next_handle + 1,
            final(self).memory == old(self).memory,
            final(self).buffer_type_bits == old(self).buffer_type_bits,
    {
        let h = self.next_handle;
        self.next_handle = self.next_handle + 1;
        h
    }
}

} // verus!
