use snakevk::buffer::{Buffer, BufferUsage};
use snakevk::device::Device;
use snakevk::memory::{
    find_memory_type, MemoryProperties, MEMORY_DEVICE_LOCAL, MEMORY_HOST_COHERENT,
    MEMORY_HOST_VISIBLE,
};

fn host_visible_device() -> Device {
    // type 0: device-local only; type 1: host-visible + host-coherent
    let memory = MemoryProperties {
        types: vec![MEMORY_DEVICE_LOCAL, MEMORY_HOST_VISIBLE | MEMORY_HOST_COHERENT],
    };
    Device::new(memory, 0b11)
}

#[test]
fn create_then_read_back_returns_payload() {
    let mut device = host_visible_device();
    let payload = vec![1u8, 2, 3, 4, 5, 6, 7, 8];
    let buffer = Buffer::new(
        &mut device,
        payload.clone(),
        2,
        BufferUsage::Vertex,
        MEMORY_HOST_VISIBLE | MEMORY_HOST_COHERENT,
    );
    assert_eq!(buffer.read_back(), payload);
    assert_eq!(buffer.size, 8);
    assert_eq!(buffer.count(), 2);
}

#[test]
fn create_picks_first_matching_memory_type() {
    let mut device = host_visible_device();
    let buffer = Buffer::new(
        &mut device,
        vec![0u8; 4],
        1,
        BufferUsage::Uniform,
        MEMORY_HOST_VISIBLE | MEMORY_HOST_COHERENT,
    );
    assert_eq!(buffer.memory_type_index, 1);
}

#[test]
fn buffer_and_memory_handles_are_distinct() {
    let mut device = host_visible_device();
    let a = Buffer::new(&mut device, vec![0u8; 4], 1, BufferUsage::Vertex, MEMORY_HOST_VISIBLE);
    let b = Buffer::new(&mut device, vec![0u8; 4], 1, BufferUsage::Vertex, MEMORY_HOST_VISIBLE);
    assert_ne!(a.buffer, a.memory);
    assert_ne!(a.buffer, b.buffer);
    assert_ne!(a.memory, b.memory);
}

#[test]
fn overwrite_replaces_all_visible_bytes() {
    let mut device = host_visible_device();
    let mut buffer = Buffer::new(
        &mut device,
        vec![10u8, 20, 30, 40],
        1,
        BufferUsage::Uniform,
        MEMORY_HOST_VISIBLE | MEMORY_HOST_COHERENT,
    );
    let next = vec![90u8, 91, 92, 93];
    buffer.set_buffer(&next);
    let readback = buffer.read_back();
    assert_eq!(readback, next);
    // no stale reads: nothing of the old payload shows through
    assert!(readback.iter().zip([10u8, 20, 30, 40].iter()).all(|(a, b)| a != b));
}

#[test]
fn empty_payload_makes_an_empty_buffer() {
    let mut device = host_visible_device();
    let buffer = Buffer::new(
        &mut device,
        Vec::new(),
        0,
        BufferUsage::Vertex,
        MEMORY_HOST_VISIBLE | MEMORY_HOST_COHERENT,
    );
    assert_eq!(buffer.size, 0);
    assert_eq!(buffer.count(), 0);
    assert!(buffer.read_back().is_empty());
}

#[test]
fn no_memory_types_means_no_selection() {
    let props = MemoryProperties { types: vec![] };
    assert_eq!(find_memory_type(&props, u32::MAX, 0), None);
}

#[test]
fn memory_type_selection_first_match() {
    let props = MemoryProperties {
        types: vec![
            MEMORY_DEVICE_LOCAL,
            MEMORY_HOST_VISIBLE,
            MEMORY_HOST_VISIBLE | MEMORY_HOST_COHERENT,
            MEMORY_HOST_VISIBLE | MEMORY_HOST_COHERENT,
        ],
    };
    // both 2 and 3 qualify; the first wins
    assert_eq!(
        find_memory_type(&props, 0b1111, MEMORY_HOST_VISIBLE | MEMORY_HOST_COHERENT),
        Some(2)
    );
    // the filter can mask the first match away
    assert_eq!(
        find_memory_type(&props, 0b1000, MEMORY_HOST_VISIBLE | MEMORY_HOST_COHERENT),
        Some(3)
    );
    // no type carries the flags
    assert_eq!(find_memory_type(&props, 0b1111, 0x100), None);
}

#[test]
fn memory_type_selection_is_deterministic() {
    let props = MemoryProperties {
        types: vec![MEMORY_DEVICE_LOCAL, MEMORY_HOST_VISIBLE | MEMORY_HOST_COHERENT],
    };
    let first = find_memory_type(&props, 0b11, MEMORY_HOST_VISIBLE);
    for _ in 0..16 {
        assert_eq!(find_memory_type(&props, 0b11, MEMORY_HOST_VISIBLE), first);
    }
}
