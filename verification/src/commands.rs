//! Command buffers as recorded sequences of commands.
//!
//! The GPU executes recorded commands in recording order, so the model keeps
//! each command buffer as the exact sequence recorded into it. The frame
//! controller owns one long-lived draw command buffer; one-shot work records
//! into transient command buffers allocated on demand.

use vstd::prelude::*;

verus! {

/// One recorded command, with the plain values that identify its operands.
#[derive(Debug, Clone, Copy, PartialEq, Eq, Structural)]
pub enum Command {
    /// Begin the render pass against the framebuffer for the acquired image,
    /// clearing color to the fixed background value.
    BeginRenderPass { framebuffer_index: u32 },
    /// Bind the graphics pipeline.
    BindPipeline,
    /// Set the dynamic viewport to the full target extent.
    SetViewport { width: u32, height: u32 },
    /// Set the scissor rectangle to the full target extent.
    SetScissor { width: u32, height: u32 },
    /// Bind a descriptor set at a slot of the pipeline layout.
    BindDescriptorSet { pipeline_layout: u64, slot: u32, set: u64 },
    /// Bind a vertex buffer at a binding point, offset zero.
    BindVertexBuffer { binding: u32, buffer: u64 },
    /// Draw a range of vertices and instances.
    Draw { vertex_count: u32, instance_count: u32, first_vertex: u32, first_instance: u32 },
    /// End the render pass.
    EndRenderPass,
}

/// A command buffer: its handle, whether it is open for recording, whether it
/// was begun for a single submission, and everything recorded so far.
pub struct CommandBuffer {
    pub handle: u64,
    pub recording: bool,
    pub one_time_submit: bool,
    pub commands: Vec<Command>,
}

impl CommandBuffer {
    /// A fresh command buffer: allocated, not yet recording.
    pub fn new(handle: u64, one_time_submit: bool) -> (cb: CommandBuffer)
        ensures
            cb.handle == handle,
            !cb.recording,
            cb.one_time_submit == one_time_submit,
            cb.commands@ == Seq::<Command>::empty(),
    {
        CommandBuffer { handle, recording: false, one_time_submit, commands: Vec::new() }
    }

    /// Begin recording; earlier contents are discarded.
    pub fn begin(&mut self)
        requires
            !old(self).recording,
        ensures
            final(self).recording,
            final(self).commands@ == Seq::<Command>::empty(),
            final(self).handle == old(self).handle,
            final(self).one_time_submit == old(self).one_time_submit,
    {
        self.commands.clear();
        self.recording = true;
    }

    /// Record one command at the end of the buffer.
    pub fn record(&mut self, c: Command)
        requires
            old(self).recording,
        ensures
            final(self).recording,
            final(self).commands@ == old(self).commands@.push(c),
            final(self).handle == old(self).handle,
            final(self).one_time_submit == old(self).one_time_submit,
    {
        self.commands.push(c);
    }

    /// End recording; the recorded sequence is now fixed for submission.
    pub fn end(&mut self)
        requires
            old(self).recording,
        ensures
            !final(self).recording,
            final(self).commands@ == old(self).commands@,
            final(self).handle == old(self).handle,
            final(self).one_time_submit == old(self).one_time_submit,
    {
        self.recording = false;
    }
}

} // verus!
