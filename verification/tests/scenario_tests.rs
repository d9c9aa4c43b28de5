use snakevk::commands::Command;
use snakevk::device::Device;
use snakevk::engine::Engine;
use snakevk::memory::{MemoryProperties, MEMORY_HOST_COHERENT, MEMORY_HOST_VISIBLE};
use snakevk::tile::{Tile, TileState};

const SCREEN: f32 = 800.0;

/// The fixed screen-space transform: pixels to normalized device
/// coordinates, with the vertical axis flipped.
fn px_to_screen(x_px: f32, y_px: f32) -> [f32; 2] {
    [((x_px * 2.0) / SCREEN) - 1.0, (((y_px * 2.0) / SCREEN) - 1.0) * -1.0]
}

fn quad_payload(x0: f32, y0: f32, x1: f32, y1: f32) -> Vec<u8> {
    let corners = [
        px_to_screen(x0, y0),
        px_to_screen(x0, y1),
        px_to_screen(x1, y1),
        px_to_screen(x0, y0),
        px_to_screen(x1, y1),
        px_to_screen(x1, y0),
    ];
    let mut payload = Vec::new();
    for c in corners.iter() {
        payload.extend_from_slice(&c[0].to_le_bytes());
        payload.extend_from_slice(&c[1].to_le_bytes());
    }
    payload
}

fn test_engine() -> Engine {
    let memory = MemoryProperties { types: vec![MEMORY_HOST_VISIBLE | MEMORY_HOST_COHERENT] };
    let device = Device::new(memory, 0b1);
    Engine::new(device, 2, 800, 800, 21, 22, 31, 32, 41)
}

#[test]
fn one_drawable_records_one_draw_of_six_vertices() {
    let mut engine = test_engine();
    let payload = quad_payload(0.0, 0.0, 72.0, 72.0);
    assert_eq!(payload.len(), 48);
    let layout = engine.descriptor_set_layout();
    let mut tile = Tile::new(&mut engine.device, layout, payload.clone(), 6, TileState::Snake);
    assert_eq!(tile.vertex_buffer.read_back(), payload);

    engine.begin_draw(0);
    let pipeline_layout = engine.pipeline_layout();
    tile.draw(&mut engine.draw_command_buffer, pipeline_layout);
    engine.end_draw();

    let commands = &engine.draw_command_buffer.commands;
    let draws: Vec<&Command> = commands
        .iter()
        .filter(|c| matches!(c, Command::Draw { .. }))
        .collect();
    assert_eq!(draws.len(), 1);
    assert_eq!(
        draws[0],
        &Command::Draw { vertex_count: 6, instance_count: 1, first_vertex: 0, first_instance: 0 }
    );
    // the drawable's descriptor set was bound at slot 0 before the draw
    let bind_at = commands
        .iter()
        .position(|c| {
            matches!(
                c,
                Command::BindDescriptorSet { slot: 0, set, .. } if *set == tile.descriptor_set.set
            )
        })
        .unwrap();
    let draw_at = commands.iter().position(|c| matches!(c, Command::Draw { .. })).unwrap();
    assert!(bind_at < draw_at);
    // the binding the GPU sees is the tile's uniform buffer
    let published = tile.descriptor_set.published.unwrap();
    assert_eq!(published.buffer, tile.uniform_buffer.buffer);
}

#[test]
fn uniform_payload_encodes_the_palette() {
    let mut device = Device::new(
        MemoryProperties { types: vec![MEMORY_HOST_VISIBLE | MEMORY_HOST_COHERENT] },
        0b1,
    );
    let tile = Tile::new(&mut device, 1, vec![0u8; 48], 6, TileState::Snake);
    let bytes = tile.uniform_buffer.read_back();
    assert_eq!(bytes.len(), 12);
    let component =
        |i: usize| f32::from_le_bytes([bytes[i], bytes[i + 1], bytes[i + 2], bytes[i + 3]]);
    // a snake segment is pure blue
    assert_eq!(component(0), 0.0);
    assert_eq!(component(4), 0.0);
    assert_eq!(component(8), 1.0);
}
