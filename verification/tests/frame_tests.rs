use snakevk::commands::Command;
use snakevk::device::Device;
use snakevk::engine::{Engine, FrameStage, STAGE_COLOR_ATTACHMENT_OUTPUT};
use snakevk::memory::{MemoryProperties, MEMORY_HOST_COHERENT, MEMORY_HOST_VISIBLE};

const IMAGE_AVAILABLE: u64 = 101;
const RENDER_FINISHED: u64 = 102;

fn test_engine() -> Engine {
    let memory = MemoryProperties { types: vec![MEMORY_HOST_VISIBLE | MEMORY_HOST_COHERENT] };
    let device = Device::new(memory, 0b1);
    Engine::new(device, 3, 800, 800, 11, 12, IMAGE_AVAILABLE, RENDER_FINISHED, 13)
}

#[test]
fn fence_starts_signaled_and_frames_start_at_zero() {
    let engine = test_engine();
    assert!(engine.in_flight_fence_signaled);
    assert_eq!(engine.frames_submitted, 0);
    assert_eq!(engine.frames_completed, 0);
    assert_eq!(engine.stage, FrameStage::Idle);
}

#[test]
fn begin_draw_records_frame_prologue() {
    let mut engine = test_engine();
    engine.begin_draw(2);
    assert!(!engine.in_flight_fence_signaled);
    assert_eq!(engine.image_index, 2);
    assert_eq!(
        engine.draw_command_buffer.commands,
        vec![
            Command::BeginRenderPass { framebuffer_index: 2 },
            Command::BindPipeline,
            Command::SetViewport { width: 800, height: 800 },
            Command::SetScissor { width: 800, height: 800 },
        ]
    );
}

#[test]
fn end_draw_submits_with_frame_synchronization() {
    let mut engine = test_engine();
    engine.begin_draw(0);
    engine.end_draw();
    assert_eq!(engine.frames_submitted, 1);
    let submit = engine.last_submit.unwrap();
    assert_eq!(submit.wait_semaphore, IMAGE_AVAILABLE);
    assert_eq!(submit.wait_stage, STAGE_COLOR_ATTACHMENT_OUTPUT);
    assert_eq!(submit.signal_semaphore, RENDER_FINISHED);
    assert!(submit.signals_fence);
    let present = engine.last_present.unwrap();
    assert_eq!(present.wait_semaphore, RENDER_FINISHED);
    assert_eq!(present.image_index, 0);
    assert_eq!(
        engine.draw_command_buffer.commands.last(),
        Some(&Command::EndRenderPass)
    );
}

#[test]
fn fence_is_signaled_exactly_once_per_submitted_frame() {
    let mut engine = test_engine();
    let cycles: u64 = 5;
    for k in 0..cycles {
        // the wait in begin_draw consumes exactly the previous frame's signal
        engine.begin_draw((k % 3) as u32);
        assert_eq!(engine.frames_completed, k);
        engine.end_draw();
        assert_eq!(engine.frames_submitted, k + 1);
        // at most one frame in flight, never more
        assert!(engine.frames_submitted - engine.frames_completed <= 1);
    }
    engine.begin_draw(0);
    assert_eq!(engine.frames_completed, cycles);
}

#[test]
fn transient_execution_is_synchronous() {
    let mut engine = test_engine();
    engine.begin_draw(0);
    engine.end_draw();
    let cb = engine.begin_single_exec_command();
    assert!(cb.recording);
    assert!(cb.one_time_submit);
    engine.end_single_exec_command(cb);
    // the queue-idle wait drained everything, the frame included
    assert_eq!(engine.frames_completed, engine.frames_submitted);
    assert!(engine.in_flight_fence_signaled);
    assert_eq!(engine.transients_executed, 1);
}

#[test]
fn transient_buffers_get_fresh_handles() {
    let mut engine = test_engine();
    let a = engine.begin_single_exec_command();
    let b = engine.begin_single_exec_command();
    assert_ne!(a.handle, b.handle);
    assert_ne!(a.handle, engine.draw_command_buffer.handle);
    engine.end_single_exec_command(a);
    engine.end_single_exec_command(b);
    assert_eq!(engine.transients_executed, 2);
}
