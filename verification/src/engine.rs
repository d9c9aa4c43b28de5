//! The frame controller: image acquisition, render-pass recording, submission
//! and presentation, coordinated through one fence and two semaphores.
//!
//! At most one frame is ever in flight. The in-flight fence is created
//! signaled; beginning a frame waits on it (the back-pressure that keeps the
//! CPU at most one frame ahead), resets it, and records the frame prologue.
//! Ending a frame submits the command buffer — waiting on the image-available
//! semaphore at the color-attachment-output stage, signaling the
//! render-finished semaphore and the fence — and requests presentation on the
//! render-finished semaphore. The model counts submitted and completed
//! frames; the wait at the start of a frame is exactly the point where the
//! count of completed frames catches up with the count of submitted ones.

use vstd::prelude::*;

use crate::commands::{Command, CommandBuffer};
use crate::device::Device;

verus! {

/// Pipeline stage at which a frame submission waits for image acquisition.
pub const STAGE_COLOR_ATTACHMENT_OUTPUT: u32 = 0x400;

/// Where the controller stands inside the per-frame cycle.
#[derive(Debug, Clone, Copy, PartialEq, Eq, Structural)]
pub enum FrameStage {
    /// Between frames: the draw command buffer is not recording.
    Idle,
    /// Between `begin_draw` and `end_draw`: commands are being recorded.
    Recording,
}

/// How a frame submission is wired to the synchronization primitives.
#[derive(Debug, Clone, Copy, PartialEq, Eq, Structural)]
pub struct SubmitInfo {
    /// Semaphore the submission waits on before color-attachment output.
    pub wait_semaphore: u64,
    /// Pipeline stage mask at which that wait applies.
    pub wait_stage: u32,
    /// Semaphore the submission signals on completion.
    pub signal_semaphore: u64,
    /// Whether the submission signals the in-flight fence on completion.
    pub signals_fence: bool,
}

/// How a presentation request is wired.
#[derive(Debug, Clone, Copy, PartialEq, Eq, Structural)]
pub struct PresentInfo {
    /// Semaphore presentation waits on.
    pub wait_semaphore: u64,
    /// Which swapchain image is presented.
    pub image_index: u32,
}

/// The frame controller and the per-frame state it owns.
pub struct Engine {
    /// The logical device the controller drives.
    pub device: Device,
    pub extent_width: u32,
    pub extent_height: u32,
    /// Number of presentable images (and framebuffers) in the swapchain.
    pub framebuffer_count: u32,
    /// Handle of the shared descriptor-set layout.
    pub descriptor_set_layout: u64,
    /// Handle of the shared pipeline layout.
    pub pipeline_layout: u64,
    /// Semaphore signaled when an acquired image is ready.
    pub image_available_semaphore: u64,
    /// Semaphore signaled when rendering of a frame finishes.
    pub render_finished_semaphore: u64,
    /// The one long-lived draw command buffer, reused every frame.
    pub draw_command_buffer: CommandBuffer,
    /// Index of the currently acquired swapchain image.
    pub image_index: u32,
    pub stage: FrameStage,
    /// Whether the in-flight fence stands signaled.
    pub in_flight_fence_signaled: bool,
    /// Frames submitted to the queue so far.
    pub frames_submitted: u64,
    /// Frames whose GPU work has completed (fence signaled) so far.
    pub frames_completed: u64,
    /// One-shot command buffers executed so far.
    pub transients_executed: u64,
    /// Wiring of the most recent frame submission, if any.
    pub last_submit: Option<SubmitInfo>,
    /// Wiring of the most recent presentation request, if any.
    pub last_present: Option<PresentInfo>,
}

/// The GPU still owes the fence a signal for a submitted frame.
pub open spec fn gpu_busy(e: Engine) -> bool {
    e.frames_submitted == e.frames_completed + 1
}

/// The commands `begin_draw` records: render pass against the acquired
/// image's framebuffer, pipeline bind, then viewport and scissor set to the
/// full target extent — a strict sequence.
pub open spec fn frame_prologue(framebuffer_index: u32, width: u32, height: u32) -> Seq<Command> {
    seq![
        Command::BeginRenderPass { framebuffer_index },
        Command::BindPipeline,
        Command::SetViewport { width, height },
        Command::SetScissor { width, height },
    ]
}

/// What `begin_draw` does to the frame counters: the fence wait completes
/// every submitted frame before recording resumes, submits nothing, and
/// leaves the fence reset.
pub open spec fn begin_draw_step(pre: Engine, post: Engine) -> bool {
    &&& pre.stage is Idle
    &&& post.stage is Recording
    &&& post.frames_completed == pre.frames_submitted
    &&& post.frames_submitted == pre.frames_submitted
    &&& !post.in_flight_fence_signaled
}

/// What `end_draw` does to the frame counters: exactly one more frame on the
/// queue, nothing completed.
pub open spec fn end_draw_step(pre: Engine, post: Engine) -> bool {
    &&& pre.stage is Recording
    &&& post.stage is Idle
    &&& post.frames_submitted == pre.frames_submitted + 1
    &&& post.frames_completed == pre.frames_completed
}

impl Engine {
    /// Frame-level invariant: at most one frame is in flight — the submitted
    /// count never runs more than one ahead of the completed count — the
    /// fence stands signaled only when no work is owed, and the command
    /// buffer records exactly between `begin_draw` and `end_draw`.
    pub open spec fn wf(self) -> bool {
        &&& self.device.wf()
        &&& self.framebuffer_count > 0
        &&& self.image_index < self.framebuffer_count
        &&& self.frames_completed <= self.frames_submitted
        &&& self.frames_submitted <= self.frames_completed + 1
        &&& self.in_flight_fence_signaled ==> self.frames_submitted == self.frames_completed
        &&& self.stage is Recording ==> {
            &&& self.draw_command_buffer.recording
            &&& self.frames_submitted == self.frames_completed
            &&& !self.in_flight_fence_signaled
        }
        &&& self.stage is Idle ==> !self.draw_command_buffer.recording
    }

    /// Assemble the controller from what the bootstrap collaborator provides:
    /// the device, the swapchain's image count, the target extent, the shared
    /// layout handles, the two semaphores and the draw command buffer. The
    /// in-flight fence starts signaled so that the first frame's wait passes.
    pub fn new(
        device: Device,
        framebuffer_count: u32,
        extent_width: u32,
        extent_height: u32,
        descriptor_set_layout: u64,
        pipeline_layout: u64,
        image_available_semaphore: u64,
        render_finished_semaphore: u64,
        draw_command_buffer_handle: u64,
    ) -> (e: Engine)
        requires
            device.wf(),
            framebuffer_count > 0,
        ensures
            e.wf(),
            e.device == device,
            e.framebuffer_count == framebuffer_count,
            e.extent_width == extent_width,
            e.extent_height == extent_height,
            e.descriptor_set_layout == descriptor_set_layout,
            e.pipeline_layout == pipeline_layout,
            e.image_available_semaphore == image_available_semaphore,
            e.render_finished_semaphore == render_finished_semaphore,
            e.draw_command_buffer.handle == draw_command_buffer_handle,
            !e.draw_command_buffer.recording,
            e.stage is Idle,
            e.in_flight_fence_signaled,
            e.frames_submitted == 0,
            e.frames_completed == 0,
            e.transients_executed == 0,
            e.image_index == 0,
            e.last_submit is None,
            e.last_present is None,
    {
        Engine {
            device,
            extent_width,
            extent_height,
            framebuffer_count,
            descriptor_set_layout,
            pipeline_layout,
            image_available_semaphore,
            render_finished_semaphore,
            draw_command_buffer: CommandBuffer::new(draw_command_buffer_handle, false),
            image_index: 0,
            stage: FrameStage::Idle,
            in_flight_fence_signaled: true,
            frames_submitted: 0,
            frames_completed: 0,
            transients_executed: 0,
            last_submit: None,
            last_present: None,
        }
    }

    /// Begin a frame. The caller has waited on the in-flight fence — the wait
    /// returns only once the GPU has signaled it, which is why the completed
    /// count catches up with the submitted count here, before any reuse of
    /// the command buffer — and has acquired `acquired_image_index` from the
    /// presentation engine. The fence is reset and the frame prologue is
    /// recorded into the freshly begun command buffer.
    pub fn begin_draw(&mut self, acquired_image_index: u32)
        requires
            old(self).wf(),
            old(self).stage is Idle,
            acquired_image_index < old(self).framebuffer_count,
        ensures
            final(self).wf(),
            begin_draw_step(*old(self), *final(self)),
            final(self).stage is Recording,
            // the wait: every submitted frame has completed before recording resumes
            final(self).frames_completed == old(self).frames_submitted,
            final(self).frames_submitted == old(self).frames_submitted,
            // the fence is reset to unsignaled for this frame's submission
            !final(self).in_flight_fence_signaled,
            final(self).image_index == acquired_image_index,
            final(self).draw_command_buffer.recording,
            final(self).draw_command_buffer.commands@ == frame_prologue(
                acquired_image_index,
                old(self).extent_width,
                old(self).extent_height,
            ),
            final(self).draw_command_buffer.handle == old(self).draw_command_buffer.handle,
            final(self).device == old(self).device,
            final(self).extent_width == old(self).extent_width,
            final(self).extent_height == old(self).extent_height,
            final(self).framebuffer_count == old(self).framebuffer_count,
            final(self).descriptor_set_layout == old(self).descriptor_set_layout,
            final(self).pipeline_layout == old(self).pipeline_layout,
            final(self).image_available_semaphore == old(self).image_available_semaphore,
            final(self).render_finished_semaphore == old(self).render_finished_semaphore,
            final(self).transients_executed == old(self).transients_executed,
            final(self).last_submit == old(self).last_submit,
            final(self).last_present == old(self).last_present,
    {
        // the fence wait completes the one frame that may still be in flight
        self.frames_completed = self.frames_submitted;
        self.image_index = acquired_image_index;
        self.in_flight_fence_signaled = false;
        self.draw_command_buffer.begin();
        self.draw_command_buffer.record(
            Command::BeginRenderPass { framebuffer_index: acquired_image_index },
        );
        self.draw_command_buffer.record(Command::BindPipeline);
        self.draw_command_buffer.record(
            Command::SetViewport { width: self.extent_width, height: self.extent_height },
        );
        self.draw_command_buffer.record(
            Command::SetScissor { width: self.extent_width, height: self.extent_height },
        );
        self.stage = FrameStage::Recording;
    }

    /// End the frame: close the render pass and the command buffer, submit to
    /// the graphics queue — waiting on the image-available semaphore at the
    /// color-attachment-output stage, signaling the render-finished semaphore
    /// and the in-flight fence — and request presentation of the acquired
    /// image on the render-finished semaphore.
    pub fn end_draw(&mut self)
        requires
            old(self).wf(),
            old(self).stage is Recording,
            old(self).frames_submitted < u64::MAX,
        ensures
            final(self).wf(),
            end_draw_step(*old(self), *final(self)),
            final(self).stage is Idle,
            !final(self).draw_command_buffer.recording,
            final(self).draw_command_buffer.commands@ == old(
                self,
            ).draw_command_buffer.commands@.push(Command::EndRenderPass),
            final(self).draw_command_buffer.handle == old(self).draw_command_buffer.handle,
            // exactly one more frame is on the queue, its fence signal still owed
            final(self).frames_submitted == old(self).frames_submitted + 1,
            final(self).frames_completed == old(self).frames_completed,
            gpu_busy(*final(self)),
            !final(self).in_flight_fence_signaled,
            final(self).last_submit == Some(
                SubmitInfo {
                    wait_semaphore: old(self).image_available_semaphore,
                    wait_stage: STAGE_COLOR_ATTACHMENT_OUTPUT,
                    signal_semaphore: old(self).render_finished_semaphore,
                    signals_fence: true,
                },
            ),
            final(self).last_present == Some(
                PresentInfo {
                    wait_semaphore: old(self).render_finished_semaphore,
                    image_index: old(self).image_index,
                },
            ),
            final(self).image_index == old(self).image_index,
            final(self).device == old(self).device,
            final(self).extent_width == old(self).extent_width,
            final(self).extent_height == old(self).extent_height,
            final(self).framebuffer_count == old(self).framebuffer_count,
            final(self).descriptor_set_layout == old(self).descriptor_set_layout,
            final(self).pipeline_layout == old(self).pipeline_layout,
            final(self).image_available_semaphore == old(self).image_available_semaphore,
            final(self).render_finished_semaphore == old(self).render_finished_semaphore,
            final(self).transients_executed == old(self).transients_executed,
    {
        self.draw_command_buffer.record(Command::EndRenderPass);
        self.draw_command_buffer.end();
        self.frames_submitted = self.frames_submitted + 1;
        self.last_submit = Some(
            SubmitInfo {
                wait_semaphore: self.image_available_semaphore,
                wait_stage: STAGE_COLOR_ATTACHMENT_OUTPUT,
                signal_semaphore: self.render_finished_semaphore,
                signals_fence: true,
            },
        );
        self.last_present = Some(
            PresentInfo {
                wait_semaphore: self.render_finished_semaphore,
                image_index: self.image_index,
            },
        );
        self.stage = FrameStage::Idle;
    }

    /// Allocate a fresh primary command buffer from the shared pool and begin
    /// recording it for a single submission.
    pub fn begin_single_exec_command(&mut self) -> (cb: CommandBuffer)
        requires
            old(self).wf(),
            old(self).device.handles_left(1),
        ensures
            final(self).wf(),
            cb.handle == old(self).device.next_handle,
            cb.recording,
            cb.one_time_submit,
            cb.commands@ == Seq::<Command>::empty(),
            final(self).device.next_handle == old(self).device.next_handle + 1,
            final(self).device.memory == old(self).device.memory,
            final(self).device.buffer_type_bits == old(self).device.buffer_type_bits,
            final(self).stage == old(self).stage,
            final(self).draw_command_buffer == old(self).draw_command_buffer,
            final(self).frames_submitted == old(self).frames_submitted,
            final(self).frames_completed == old(self).frames_completed,
            final(self).in_flight_fence_signaled == old(self).in_flight_fence_signaled,
            final(self).transients_executed == old(self).transients_executed,
            final(self).image_index == old(self).image_index,
            final(self).extent_width == old(self).extent_width,
            final(self).extent_height == old(self).extent_height,
            final(self).framebuffer_count == old(self).framebuffer_count,
            final(self).descriptor_set_layout == old(self).descriptor_set_layout,
            final(self).pipeline_layout == old(self).pipeline_layout,
            final(self).image_available_semaphore == old(self).image_available_semaphore,
            final(self).render_finished_semaphore == old(self).render_finished_semaphore,
            final(self).last_submit == old(self).last_submit,
            final(self).last_present == old(self).last_present,
    {
        let handle = self.device.fresh_handle();
        let mut cb = CommandBuffer::new(handle, true);
        cb.begin();
        cb
    }

    /// End the one-shot command buffer, submit it with no synchronization
    /// dependencies, block until the queue is idle, and free it. Synchronous:
    /// when this returns, the queue holds no outstanding work at all — the
    /// consumed buffer's included — so every submitted frame is completed and
    /// a pending fence signal has been delivered.
    pub fn end_single_exec_command(&mut self, command_buffer: CommandBuffer)
        requires
            old(self).wf(),
            command_buffer.recording,
            command_buffer.one_time_submit,
            old(self).transients_executed < u64::MAX,
        ensures
            final(self).wf(),
            // the queue-idle wait: no outstanding work remains on the queue
            final(self).frames_completed == old(self).frames_submitted,
            final(self).frames_submitted == old(self).frames_submitted,
            !gpu_busy(*final(self)),
            final(self).transients_executed == old(self).transients_executed + 1,
            final(self).in_flight_fence_signaled == (old(self).in_flight_fence_signaled
                || gpu_busy(*old(self))),
            final(self).stage == old(self).stage,
            final(self).draw_command_buffer == old(self).draw_command_buffer,
            final(self).device == old(self).device,
            final(self).image_index == old(self).image_index,
            final(self).extent_width == old(self).extent_width,
            final(self).extent_height == old(self).extent_height,
            final(self).framebuffer_count == old(self).framebuffer_count,
            final(self).descriptor_set_layout == old(self).descriptor_set_layout,
            final(self).pipeline_layout == old(self).pipeline_layout,
            final(self).image_available_semaphore == old(self).image_available_semaphore,
            final(self).render_finished_semaphore == old(self).render_finished_semaphore,
            final(self).last_submit == old(self).last_submit,
            final(self).last_present == old(self).last_present,
    {
        let mut cb = command_buffer;
        cb.end();
        // submit with no dependencies, then wait until the queue is idle:
        // every frame still in flight completes and signals its fence
        if self.frames_completed < self.frames_submitted {
            self.in_flight_fence_signaled = true;
        }
        self.frames_completed = self.frames_submitted;
        self.transients_executed = self.transients_executed + 1;
        // the command buffer is freed: consumed here, never handed back
    }

    /// The handle of the long-lived draw command buffer.
    pub fn draw_command_buffer(&self) -> (h: u64)
        ensures
            h == self.draw_command_buffer.handle,
    {
        self.draw_command_buffer.handle
    }

    /// The device the controller drives.
    pub fn device(&self) -> (d: &Device)
        ensures
            d == &self.device,
    {
        &self.device
    }

    /// The memory-type snapshot of the device.
    pub fn memory_properties(&self) -> (m: &crate::memory::MemoryProperties)
        ensures
            m == &self.device.memory,
    {
        &self.device.memory
    }

    /// Handle of the shared descriptor-set layout.
    pub fn descriptor_set_layout(&self) -> (h: u64)
        ensures
            h == self.descriptor_set_layout,
    {
        self.descriptor_set_layout
    }

    /// Handle of the shared pipeline layout.
    pub fn pipeline_layout(&self) -> (h: u64)
        ensures
            h == self.pipeline_layout,
    {
        self.pipeline_layout
    }
}

/// Law: at most one frame is ever in flight. In every reachable controller
/// state the submitted count exceeds the completed count by at most one, so
/// across any run of frame cycles the in-flight fence is signaled exactly
/// once per submitted frame — a submission's signal is consumed by the next
/// frame's wait before the command buffer is reused.
pub proof fn lemma_single_frame_in_flight(e: Engine)
    requires
        e.wf(),
    ensures
        e.frames_completed <= e.frames_submitted,
        e.frames_submitted <= e.frames_completed + 1,
        e.in_flight_fence_signaled ==> e.frames_submitted == e.frames_completed,
{
}

/// Law: across consecutive frame cycles the in-flight fence is signaled
/// exactly once per submitted frame. One cycle — a `begin_draw` from a
/// well-formed state, then its `end_draw` — completes exactly the one frame
/// the previous cycle submitted (none on the very first) and submits exactly
/// one more; its recording never proceeds past the wait before everything
/// submitted has completed.
pub proof fn lemma_one_signal_per_frame_cycle(s0: Engine, s1: Engine, s2: Engine)
    requires
        s0.wf(),
        begin_draw_step(s0, s1),
        end_draw_step(s1, s2),
    ensures
        // the wait consumes every outstanding signal: at most one, and
        // exactly one for each frame the previous cycle submitted
        s1.frames_completed - s0.frames_completed == s0.frames_submitted - s0.frames_completed,
        s0.frames_submitted - s0.frames_completed <= 1,
        // the cycle ends with exactly one more frame submitted, its fence
        // signal still owed
        s2.frames_submitted == s0.frames_submitted + 1,
        s2.frames_completed == s0.frames_submitted,
{
}

} // verus!
