//! Per-draw descriptor binding: a private pool, one set, one buffer binding.
//!
//! A builder accumulates binding declarations and exactly one uniform-buffer
//! reference, then materializes pool and set in one step: the pool holds one
//! pool-size entry per declared binding, each with capacity one, and exactly
//! one set is allocated from it, so allocation can never exceed capacity.
//! The binding-to-buffer association becomes GPU-visible only when it is
//! published, and must be re-published whenever the reference changes; this
//! system publishes before every draw.

use vstd::prelude::*;

use crate::device::Device;

verus! {

/// Shader stages a binding is visible to, as a stage-flag bitmask.
pub const STAGE_VERTEX: u32 = 0x1;
pub const STAGE_FRAGMENT: u32 = 0x10;

/// The descriptor kinds this system allocates.
#[derive(Debug, Clone, Copy, PartialEq, Eq, Structural)]
pub enum DescriptorKind {
    UniformBuffer,
}

/// One declared binding: slot, descriptor kind and count, and the shader
/// stages that see it.
#[derive(Debug, Clone, Copy, PartialEq, Eq, Structural)]
pub struct LayoutBinding {
    pub binding: u32,
    pub kind: DescriptorKind,
    pub descriptor_count: u32,
    pub stage_flags: u32,
}

/// One pool-size entry: how many descriptors of a kind the pool can hand out.
#[derive(Debug, Clone, Copy, PartialEq, Eq, Structural)]
pub struct PoolSize {
    pub kind: DescriptorKind,
    pub descriptor_count: u32,
}

/// A buffer range a descriptor set is bound to.
#[derive(Debug, Clone, Copy, PartialEq, Eq, Structural)]
pub struct BufferInfo {
    pub buffer: u64,
    pub offset: u64,
    pub range: u64,
}

/// A materialized descriptor binding: the owning pool, the one set allocated
/// from it, the buffer range the set is bound to, and what of that binding
/// has been published to the GPU.
#[derive(Debug, Clone, PartialEq)]
pub struct DescriptorSet {
    /// Handle of the owning allocation pool.
    pub pool: u64,
    /// The pool's capacity, one entry per declared binding.
    pub pool_sizes: Vec<PoolSize>,
    /// How many sets the pool was sized for.
    pub max_sets: u32,
    /// How many sets have been allocated from the pool.
    pub allocated_sets: u32,
    /// Handle of the one allocated set.
    pub set: u64,
    /// The set layout the set was allocated against.
    pub layout: u64,
    /// The buffer range the set binds at slot zero.
    pub buffer_info: BufferInfo,
    /// The binding the GPU currently sees, if any was published.
    pub published: Option<BufferInfo>,
}

/// Builder that accumulates binding declarations and the uniform-buffer
/// reference before the pool and set are materialized.
pub struct DescriptorBuilder {
    pub bindings: Vec<LayoutBinding>,
    pub uniform: Option<u64>,
    pub uniform_size: Option<u64>,
}

impl DescriptorBuilder {
    /// Append one binding declaration.
    pub fn add_binding(self, binding: LayoutBinding) -> (b: DescriptorBuilder)
        ensures
            b.bindings@ == self.bindings@.push(binding),
            b.uniform == self.uniform,
            b.uniform_size == self.uniform_size,
    {
        let mut next = self;
        next.bindings.push(binding);
        next
    }

    /// Set the one uniform-buffer reference: handle and byte range.
    pub fn uniform(self, buffer: u64, size: u64) -> (b: DescriptorBuilder)
        ensures
            b.bindings@ == self.bindings@,
            b.uniform == Some(buffer),
            b.uniform_size == Some(size),
    {
        let mut next = self;
        next.uniform = Some(buffer);
        next.uniform_size = Some(size);
        next
    }

    /// Materialize the binding: create a pool with one capacity-one entry per
    /// accumulated binding, allocate exactly one set from the given layout,
    /// and snapshot the buffer reference. The uniform reference must have
    /// been supplied; nothing is published yet.
    pub fn build(self, device: &mut Device, set_layout: u64) -> (d: DescriptorSet)
        requires
            old(device).handles_left(2),
            self.uniform is Some,
            self.uniform_size is Some,
        ensures
            d.wf(),
            d.pool_sizes@.len() == self.bindings@.len(),
            forall|i: int|
                0 <= i < self.bindings@.len() ==> #[trigger] d.pool_sizes@[i] == (PoolSize {
                    kind: self.bindings@[i].kind,
                    descriptor_count: 1,
                }),
            d.max_sets == 1,
            d.allocated_sets == 1,
            d.pool == old(device).next_handle,
            d.set == old(device).next_handle + 1,
            d.layout == set_layout,
            d.buffer_info == (BufferInfo {
                buffer: self.uniform.unwrap(),
                offset: 0,
                range: self.uniform_size.unwrap(),
            }),
            d.published is None,
            final(device).next_handle == old(device).next_handle + 2,
            final(device).memory == old(device).memory,
            final(device).buffer_type_bits == old(device).buffer_type_bits,
    {
        let mut pool_sizes: Vec<PoolSize> = Vec::new();
        let n = self.bindings.len();
        let mut i: usize = 0;
        while i < n
            invariant
                n == self.bindings@.len(),
                i <= n,
                pool_sizes@.len() == i,
                forall|j: int|
                    0 <= j < i ==> #[trigger] pool_sizes@[j] == (PoolSize {
                        kind: self.bindings@[j].kind,
                        descriptor_count: 1,
                    }),
            decreases n - i,
        {
            pool_sizes.push(PoolSize { kind: self.bindings[i].kind, descriptor_count: 1 });
            i = i + 1;
        }
        let pool = device.fresh_handle();
        let set = device.fresh_handle();
        DescriptorSet {
            pool,
            pool_sizes,
            max_sets: 1,
            allocated_sets: 1,
            set,
            layout: set_layout,
            buffer_info: BufferInfo {
                buffer: self.uniform.unwrap(),
                offset: 0,
                range: self.uniform_size.unwrap(),
            },
            published: None,
        }
    }
}

/// The fields of `b` that publishing does not touch are those of `a`.
pub open spec fn publish_preserves(a: DescriptorSet, b: DescriptorSet) -> bool {
    &&& b.pool == a.pool
    &&& b.pool_sizes@ == a.pool_sizes@
    &&& b.max_sets == a.max_sets
    &&& b.allocated_sets == a.allocated_sets
    &&& b.set == a.set
    &&& b.layout == a.layout
    &&& b.buffer_info == a.buffer_info
}

/// `b` is `a` after one publish: the stored buffer reference became the
/// GPU-visible binding and nothing else moved.
pub open spec fn publish_step(a: DescriptorSet, b: DescriptorSet) -> bool {
    &&& publish_preserves(a, b)
    &&& b.published == Some(a.buffer_info)
}

impl DescriptorSet {
    /// Never more sets allocated than the pool was sized for.
    pub open spec fn wf(self) -> bool {
        self.allocated_sets <= self.max_sets
    }

    /// Start accumulating a new binding.
    pub fn builder() -> (b: DescriptorBuilder)
        ensures
            b.bindings@ == Seq::<LayoutBinding>::empty(),
            b.uniform is None,
            b.uniform_size is None,
    {
        DescriptorBuilder { bindings: Vec::new(), uniform: None, uniform_size: None }
    }

    /// Publish the binding: issue the descriptor-set write that makes the
    /// stored buffer reference the GPU-visible binding at slot zero.
    pub fn write_descriptor_set(&mut self)
        requires
            old(self).wf(),
        ensures
            final(self).wf(),
            publish_step(*old(self), *final(self)),
    {
        self.published = Some(self.buffer_info);
    }

    /// The raw set handle, for binding into a command buffer.
    pub fn descriptor_set(&self) -> (s: u64)
        ensures
            s == self.set,
    {
        self.set
    }
}

/// Law: publishing is idempotent. Publishing twice in a row with an unchanged
/// buffer reference leaves exactly the state the first publish produced, so
/// subsequent draws observe no difference.
pub proof fn lemma_publish_idempotent(s0: DescriptorSet, s1: DescriptorSet, s2: DescriptorSet)
    requires
        publish_step(s0, s1),
        publish_step(s1, s2),
    ensures
        s2.published == s1.published,
        publish_preserves(s1, s2),
{
}

} // verus!
