//! GPU buffers: one buffer handle and one memory allocation, owned as a pair.
//!
//! A buffer is created with an initial payload, a usage flag and a
//! memory-visibility requirement. Creation selects the first memory type the
//! device admits whose property flags contain the requirement, allocates at
//! least the requested byte size, and uploads the payload through a host
//! mapping. The only later mutation is a full-contents overwrite; the mapped
//! bytes the model tracks are exactly what the device sees.

use vstd::prelude::*;

use crate::device::Device;
use crate::memory::{find_memory_type, has_matching_type, is_selected_type, type_acceptable};

verus! {

/// What the buffer's memory is used for.
#[derive(Debug, Clone, Copy, PartialEq, Eq, Structural)]
pub enum BufferUsage {
    Vertex,
    Uniform,
}

/// One buffer handle plus its backing memory allocation. The two are created
/// together and only ever released together, buffer first.
pub struct Buffer {
    /// Opaque buffer handle.
    pub buffer: u64,
    /// Opaque handle of the backing memory allocation.
    pub memory: u64,
    /// Requested byte size.
    pub size: u64,
    /// Byte size of the backing allocation.
    pub allocated_size: u64,
    /// Number of elements the payload holds.
    pub count: u32,
    pub usage: BufferUsage,
    /// Index of the memory type the allocation was placed in.
    pub memory_type_index: u32,
    /// The bytes visible through the host mapping.
    pub contents: Vec<u8>,
}

impl Buffer {
    /// The allocation covers the requested size and the mapped bytes fill it.
    pub open spec fn wf(self) -> bool {
        &&& self.contents@.len() == self.size
        &&& self.size <= self.allocated_size
    }

    /// Allocate a buffer sized to the payload, bind memory of the first type
    /// the device admits that carries every bit of `required_flags`, and
    /// upload the payload through a host mapping. `count` is the number of
    /// equally sized elements the payload holds.
    pub fn new(
        device: &mut Device,
        payload: Vec<u8>,
        count: u32,
        usage: BufferUsage,
        required_flags: u32,
    ) -> (b: Buffer)
        requires
            old(device).wf(),
            old(device).handles_left(2),
            has_matching_type(
                old(device).memory.types@,
                old(device).buffer_type_bits,
                required_flags,
            ),
            count > 0 ==> payload@.len() as int % (count as int) == 0,
        ensures
            b.wf(),
            b.contents@ == payload@,
            b.size == payload@.len(),
            b.count == count,
            b.usage == usage,
            is_selected_type(
                old(device).memory.types@,
                old(device).buffer_type_bits,
                required_flags,
                Some(b.memory_type_index),
            ),
            b.buffer == old(device).next_handle,
            b.memory == old(device).next_handle + 1,
            final(device).next_handle == old(device).next_handle + 2,
            final(device).memory == old(device).memory,
            final(device).buffer_type_bits == old(device).buffer_type_bits,
    {
        let selected = find_memory_type(&device.memory, device.buffer_type_bits, required_flags);
        proof {
            let i = choose|i: int|
                type_acceptable(device.memory.types@, device.buffer_type_bits, required_flags, i);
            if selected is None {
                assert(!type_acceptable(
                    device.memory.types@,
                    device.buffer_type_bits,
                    required_flags,
                    i,
                ));
            }
        }
        let memory_type_index = selected.unwrap();
        let buffer = device.fresh_handle();
        let memory = device.fresh_handle();
        let size = payload.len() as u64;
        Buffer {
            buffer,
            memory,
            size,
            allocated_size: size,
            count,
            usage,
            memory_type_index,
            contents: payload,
        }
    }

    /// The buffer handle, for binding into command buffers.
    pub fn handle(&self) -> (h: u64)
        ensures
            h == self.buffer,
    {
        self.buffer
    }

    /// Number of elements the payload holds.
    pub fn count(&self) -> (c: u32)
        ensures
            c == self.count,
    {
        self.count
    }

    /// Replace the full contents with a same-sized payload: map the original
    /// byte size, copy the payload in, unmap. No partial update form exists.
    pub fn set_buffer(&mut self, payload: &Vec<u8>)
        requires
            old(self).wf(),
            payload@.len() == old(self).size,
        ensures
            final(self).wf(),
            final(self).contents@ == payload@,
            final(self).buffer == old(self).buffer,
            final(self).memory == old(self).memory,
            final(self).size == old(self).size,
            final(self).allocated_size == old(self).allocated_size,
            final(self).count == old(self).count,
            final(self).usage == old(self).usage,
            final(self).memory_type_index == old(self).memory_type_index,
    {
        let mut copied: Vec<u8> = Vec::new();
        let n = payload.len();
        let mut i: usize = 0;
        while i < n
            invariant
                n == payload@.len(),
                i <= n,
                copied@ == payload@.take(i as int),
            decreases n - i,
        {
            copied.push(payload[i]);
            proof {
                assert(copied@ == payload@.take(i + 1 as int));
            }
            i = i + 1;
        }
        proof {
            assert(copied@ == payload@.take(n as int));
            assert(payload@.take(n as int) == payload@);
        }
        self.contents = copied;
    }

    /// Map the buffer's memory and copy the visible bytes out.
    pub fn read_back(&self) -> (r: Vec<u8>)
        ensures
            r@ == self.contents@,
    {
        let mut out: Vec<u8> = Vec::new();
        let n = self.contents.len();
        let mut i: usize = 0;
        while i < n
            invariant
                n == self.contents@.len(),
                i <= n,
                out@ == self.contents@.take(i as int),
            decreases n - i,
        {
            out.push(self.contents[i]);
            proof {
                assert(out@ == self.contents@.take(i + 1 as int));
            }
            i = i + 1;
        }
        proof {
            assert(self.contents@.take(n as int) == self.contents@);
        }
        out
    }
}

/// Law: a buffer created from a payload reads back exactly that payload.
/// `b` holds what `new` ensures of its result and `readback` what `read_back`
/// ensures of its result; the original payload bytes come out unchanged.
pub proof fn lemma_upload_round_trip(b: Buffer, payload: Seq<u8>, readback: Seq<u8>)
    requires
        b.contents@ == payload,
        readback == b.contents@,
    ensures
        readback == payload,
{
}

/// Law: a same-sized overwrite replaces every previously visible byte. After
/// `set_buffer`, a readback yields the new payload, and at every position
/// where the new payload differs from the old contents the readback differs
/// from the old contents: no stale reads.
pub proof fn lemma_overwrite_no_stale_reads(
    before: Buffer,
    after: Buffer,
    payload: Seq<u8>,
    readback: Seq<u8>,
)
    requires
        payload.len() == before.size,
        before.wf(),
        after.contents@ == payload,
        readback == after.contents@,
    ensures
        readback == payload,
        forall|i: int|
            0 <= i < payload.len() && payload[i] != before.contents@[i] ==> readback[i]
                != before.contents@[i],
{
}

} // verus!
