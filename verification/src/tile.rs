//! One drawable grid cell: a vertex buffer, a uniform buffer holding the
//! cell's color, and a descriptor binding for that uniform.
//!
//! Drawing a tile overwrites the uniform with the color of its current state,
//! republishes the descriptor binding (every frame, unconditionally), then
//! records descriptor bind, vertex-buffer bind and draw into the frame's
//! command buffer — a strict sequence.

use vstd::prelude::*;

use crate::buffer::{Buffer, BufferUsage};
use crate::commands::{Command, CommandBuffer};
use crate::descriptor::{
    publish_step, BufferInfo, DescriptorKind, DescriptorSet, LayoutBinding, STAGE_FRAGMENT,
};
use crate::device::Device;
use crate::memory::{has_matching_type, MEMORY_HOST_COHERENT, MEMORY_HOST_VISIBLE};

verus! {

/// What a grid cell holds.
#[derive(Debug, Clone, Copy, PartialEq, Eq, Structural)]
pub enum TileState {
    Empty,
    Snake,
    Apple,
}

/// IEEE-754 single-precision encodings of the two component values the
/// palette uses. The shader reads the uniform as three little-endian
/// single-precision components; the model stores the bytes.
pub const COLOR_COMPONENT_ZERO: u32 = 0x0000_0000;
pub const COLOR_COMPONENT_FULL: u32 = 0x3F80_0000;

/// Byte size of the color uniform: three four-byte components.
pub const COLOR_PAYLOAD_SIZE: u64 = 12;

/// The four little-endian bytes of one color component word.
pub open spec fn component_bytes(bits: u32) -> Seq<u8> {
    seq![
        (bits & 0xFF) as u8,
        ((bits >> 8) & 0xFF) as u8,
        ((bits >> 16) & 0xFF) as u8,
        ((bits >> 24) & 0xFF) as u8,
    ]
}

/// The red, green and blue component words for a tile state: black for an
/// empty cell, blue for a snake segment, red for an apple.
pub open spec fn color_components(state: TileState) -> (u32, u32, u32) {
    match state {
        TileState::Empty => (COLOR_COMPONENT_ZERO, COLOR_COMPONENT_ZERO, COLOR_COMPONENT_ZERO),
        TileState::Snake => (COLOR_COMPONENT_ZERO, COLOR_COMPONENT_ZERO, COLOR_COMPONENT_FULL),
        TileState::Apple => (COLOR_COMPONENT_FULL, COLOR_COMPONENT_ZERO, COLOR_COMPONENT_ZERO),
    }
}

/// The twelve uniform bytes for a tile state.
pub open spec fn color_payload(state: TileState) -> Seq<u8> {
    component_bytes(color_components(state).0) + component_bytes(color_components(state).1)
        + component_bytes(color_components(state).2)
}

/// Append the four little-endian bytes of one component word.
fn push_component(out: &mut Vec<u8>, bits: u32)
    ensures
        final(out)@ == old(out)@ + component_bytes(bits),
{
    out.push((bits & 0xFF) as u8);
    out.push(((bits >> 8) & 0xFF) as u8);
    out.push(((bits >> 16) & 0xFF) as u8);
    out.push(((bits >> 24) & 0xFF) as u8);
    proof {
        assert(out@ =~= old(out)@ + component_bytes(bits));
    }
}

/// The uniform payload for a tile state, byte for byte.
pub fn state_color_payload(state: TileState) -> (r: Vec<u8>)
    ensures
        r@ == color_payload(state),
        r@.len() == COLOR_PAYLOAD_SIZE,
{
    let (red, green, blue) = match state {
        TileState::Empty => (COLOR_COMPONENT_ZERO, COLOR_COMPONENT_ZERO, COLOR_COMPONENT_ZERO),
        TileState::Snake => (COLOR_COMPONENT_ZERO, COLOR_COMPONENT_ZERO, COLOR_COMPONENT_FULL),
        TileState::Apple => (COLOR_COMPONENT_FULL, COLOR_COMPONENT_ZERO, COLOR_COMPONENT_ZERO),
    };
    let mut out: Vec<u8> = Vec::new();
    push_component(&mut out, red);
    push_component(&mut out, green);
    push_component(&mut out, blue);
    out
}

/// The commands one tile draw records: bind its descriptor set at slot zero,
/// bind its vertex buffer at binding zero, draw all its vertices as one
/// instance.
pub open spec fn tile_draw_commands(t: Tile, pipeline_layout: u64) -> Seq<Command> {
    seq![
        Command::BindDescriptorSet { pipeline_layout, slot: 0, set: t.descriptor_set.set },
        Command::BindVertexBuffer { binding: 0, buffer: t.vertex_buffer.buffer },
        Command::Draw {
            vertex_count: t.vertex_buffer.count,
            instance_count: 1,
            first_vertex: 0,
            first_instance: 0,
        },
    ]
}

/// `post` is `pre` after one draw: the uniform was overwritten with the
/// color of the unchanged state, the descriptor binding was published, and
/// nothing else moved.
pub open spec fn tile_drawn(pre: Tile, post: Tile) -> bool {
    &&& post.tile_state == pre.tile_state
    &&& post.vertex_buffer == pre.vertex_buffer
    &&& post.uniform_buffer.contents@ == color_payload(pre.tile_state)
    &&& post.uniform_buffer.buffer == pre.uniform_buffer.buffer
    &&& post.uniform_buffer.memory == pre.uniform_buffer.memory
    &&& post.uniform_buffer.size == pre.uniform_buffer.size
    &&& post.uniform_buffer.allocated_size == pre.uniform_buffer.allocated_size
    &&& post.uniform_buffer.count == pre.uniform_buffer.count
    &&& post.uniform_buffer.usage == pre.uniform_buffer.usage
    &&& post.uniform_buffer.memory_type_index == pre.uniform_buffer.memory_type_index
    &&& publish_step(pre.descriptor_set, post.descriptor_set)
}

/// One grid cell and the GPU resources it owns exclusively.
pub struct Tile {
    pub tile_state: TileState,
    pub vertex_buffer: Buffer,
    pub uniform_buffer: Buffer,
    pub descriptor_set: DescriptorSet,
}

impl Tile {
    /// The tile's buffers are sound, the uniform holds exactly one color
    /// payload, and the descriptor binding references that uniform's full
    /// range.
    pub open spec fn wf(self) -> bool {
        &&& self.vertex_buffer.wf()
        &&& self.vertex_buffer.usage == BufferUsage::Vertex
        &&& self.uniform_buffer.wf()
        &&& self.uniform_buffer.usage == BufferUsage::Uniform
        &&& self.uniform_buffer.size == COLOR_PAYLOAD_SIZE
        &&& self.descriptor_set.wf()
        &&& self.descriptor_set.buffer_info == (BufferInfo {
            buffer: self.uniform_buffer.buffer,
            offset: 0,
            range: COLOR_PAYLOAD_SIZE,
        })
    }

    /// Create a tile: a host-visible, host-coherent vertex buffer holding the
    /// caller-supplied vertex payload, a uniform buffer holding the color of
    /// the initial state, and a descriptor binding for the uniform built from
    /// one fragment-stage binding declaration at slot zero.
    pub fn new(
        device: &mut Device,
        descriptor_set_layout: u64,
        vertex_payload: Vec<u8>,
        vertex_count: u32,
        tile_state: TileState,
    ) -> (t: Tile)
        requires
            old(device).wf(),
            old(device).handles_left(6),
            has_matching_type(
                old(device).memory.types@,
                old(device).buffer_type_bits,
                MEMORY_HOST_VISIBLE | MEMORY_HOST_COHERENT,
            ),
            vertex_count > 0 ==> vertex_payload@.len() as int % (vertex_count as int) == 0,
        ensures
            t.wf(),
            t.tile_state == tile_state,
            t.vertex_buffer.contents@ == vertex_payload@,
            t.vertex_buffer.count == vertex_count,
            t.uniform_buffer.contents@ == color_payload(tile_state),
            t.uniform_buffer.count == 1,
            t.descriptor_set.layout == descriptor_set_layout,
            t.descriptor_set.published is None,
            t.descriptor_set.pool_sizes@.len() == 1,
            final(device).next_handle == old(device).next_handle + 6,
            final(device).memory == old(device).memory,
            final(device).buffer_type_bits == old(device).buffer_type_bits,
    {
        let vertex_buffer = Buffer::new(
            device,
            vertex_payload,
            vertex_count,
            BufferUsage::Vertex,
            MEMORY_HOST_VISIBLE | MEMORY_HOST_COHERENT,
        );
        let uniform_buffer = Buffer::new(
            device,
            state_color_payload(tile_state),
            1,
            BufferUsage::Uniform,
            MEMORY_HOST_VISIBLE | MEMORY_HOST_COHERENT,
        );
        let descriptor_set = DescriptorSet::builder()
            .add_binding(
                LayoutBinding {
                    binding: 0,
                    kind: DescriptorKind::UniformBuffer,
                    descriptor_count: 1,
                    stage_flags: STAGE_FRAGMENT,
                },
            )
            .uniform(uniform_buffer.handle(), COLOR_PAYLOAD_SIZE)
            .build(device, descriptor_set_layout);
        Tile { tile_state, vertex_buffer, uniform_buffer, descriptor_set }
    }

    /// Draw the tile into the frame's command buffer: overwrite the uniform
    /// with the color of the current state, publish the descriptor binding,
    /// then record descriptor bind, vertex bind and draw in that order.
    pub fn draw(&mut self, cmd: &mut CommandBuffer, pipeline_layout: u64)
        requires
            old(self).wf(),
            old(cmd).recording,
        ensures
            final(self).wf(),
            tile_drawn(*old(self), *final(self)),
            final(cmd).recording,
            final(cmd).commands@ == old(cmd).commands@ + tile_draw_commands(
                *old(self),
                pipeline_layout,
            ),
            final(cmd).handle == old(cmd).handle,
            final(cmd).one_time_submit == old(cmd).one_time_submit,
    {
        let color = state_color_payload(self.tile_state);
        self.uniform_buffer.set_buffer(&color);
        self.descriptor_set.write_descriptor_set();
        cmd.record(
            Command::BindDescriptorSet {
                pipeline_layout,
                slot: 0,
                set: self.descriptor_set.descriptor_set(),
            },
        );
        cmd.record(Command::BindVertexBuffer { binding: 0, buffer: self.vertex_buffer.handle() });
        cmd.record(
            Command::Draw {
                vertex_count: self.vertex_buffer.count(),
                instance_count: 1,
                first_vertex: 0,
                first_instance: 0,
            },
        );
        proof {
            assert(cmd.commands@ =~= old(cmd).commands@ + tile_draw_commands(
                *old(self),
                pipeline_layout,
            ));
        }
    }
}

} // verus!
