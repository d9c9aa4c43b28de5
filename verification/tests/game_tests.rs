use snakevk::commands::{Command, CommandBuffer};
use snakevk::device::Device;
use snakevk::game::{Direction, Game, GridPos};
use snakevk::memory::{MemoryProperties, MEMORY_HOST_COHERENT, MEMORY_HOST_VISIBLE};
use snakevk::tile::TileState;

fn test_game() -> Game {
    let memory = MemoryProperties { types: vec![MEMORY_HOST_VISIBLE | MEMORY_HOST_COHERENT] };
    let mut device = Device::new(memory, 0b1);
    let payloads: Vec<Vec<u8>> = (0..100).map(|_| vec![0u8; 48]).collect();
    Game::new(&mut device, 7, payloads)
}

fn state_at(game: &Game, x: i8, y: i8) -> TileState {
    game.tiles[(x as usize) * 10 + (y as usize)].tile_state
}

#[test]
fn board_starts_with_snake_and_apple_placed() {
    let game = test_game();
    assert_eq!(game.tiles.len(), 100);
    assert_eq!(state_at(&game, 2, 5), TileState::Snake);
    assert_eq!(state_at(&game, 3, 5), TileState::Snake);
    assert_eq!(state_at(&game, 4, 5), TileState::Snake);
    assert_eq!(state_at(&game, 7, 5), TileState::Apple);
    assert_eq!(state_at(&game, 0, 0), TileState::Empty);
    assert_eq!(game.head, GridPos { x: 4, y: 5 });
    assert_eq!(game.tail, GridPos { x: 2, y: 5 });
    assert_eq!(game.current_direction, Direction::East);
    let snake_cells = game
        .tiles
        .iter()
        .filter(|t| t.tile_state == TileState::Snake)
        .count();
    assert_eq!(snake_cells, 3);
}

#[test]
fn input_ignores_reversal() {
    let mut game = test_game();
    game.input(Direction::West);
    assert_eq!(game.current_direction, Direction::East);
    game.input(Direction::North);
    assert_eq!(game.current_direction, Direction::North);
    // the tail moves east, so the turn is queued for it
    assert_eq!(game.directions, vec![Direction::North]);
    // repeating the same turn queues nothing new
    game.input(Direction::North);
    assert_eq!(game.directions, vec![Direction::North]);
}

#[test]
fn tick_advances_head_and_tail() {
    let mut game = test_game();
    game.tick();
    assert_eq!(game.head, GridPos { x: 5, y: 5 });
    assert_eq!(game.tail, GridPos { x: 3, y: 5 });
    assert_eq!(state_at(&game, 5, 5), TileState::Snake);
    assert_eq!(state_at(&game, 2, 5), TileState::Empty);
    // length is unchanged
    let snake_cells = game
        .tiles
        .iter()
        .filter(|t| t.tile_state == TileState::Snake)
        .count();
    assert_eq!(snake_cells, 3);
}

#[test]
fn eating_the_apple_grows_the_snake_and_respawns_one_apple() {
    let mut game = test_game();
    game.tick();
    game.tick();
    // head now at (6, 5), apple ahead at (7, 5)
    assert_eq!(game.head, GridPos { x: 6, y: 5 });
    let tail_before = game.tail;
    game.tick();
    assert_eq!(game.head, GridPos { x: 7, y: 5 });
    assert_eq!(state_at(&game, 7, 5), TileState::Snake);
    // the tail did not move: the snake grew by one
    assert_eq!(game.tail, tail_before);
    let snake_cells = game
        .tiles
        .iter()
        .filter(|t| t.tile_state == TileState::Snake)
        .count();
    assert_eq!(snake_cells, 4);
    // exactly one apple is back on some previously empty cell
    let apples = game
        .tiles
        .iter()
        .filter(|t| t.tile_state == TileState::Apple)
        .count();
    assert_eq!(apples, 1);
}

#[test]
fn apple_respawn_always_lands_on_an_empty_cell() {
    // the respawn draws from the process randomness source: repeat with
    // fresh boards so a bad draw could not slip through unnoticed
    for _ in 0..20 {
        let mut game = test_game();
        game.tick();
        game.tick();
        game.tick();
        let apples: Vec<usize> = game
            .tiles
            .iter()
            .enumerate()
            .filter(|(_, t)| t.tile_state == TileState::Apple)
            .map(|(i, _)| i)
            .collect();
        assert_eq!(apples.len(), 1);
        // the new apple sits on a cell the snake does not occupy
        assert_ne!(game.tiles[apples[0]].tile_state, TileState::Snake);
        let head_index = (game.head.x as usize) * 10 + game.head.y as usize;
        assert_ne!(apples[0], head_index);
    }
}

#[test]
fn queued_turn_reaches_the_tail_at_the_corner() {
    let mut game = test_game();
    game.input(Direction::North);
    game.tick();
    assert_eq!(game.head, GridPos { x: 4, y: 6 });
    assert_eq!(game.tail, GridPos { x: 3, y: 5 });
    // the tail still moves east toward the corner where the body turned
    assert_eq!(game.tail_direction, Direction::East);
    game.tick();
    // the cell ahead of the tail still held the body: keep going east
    assert_eq!(game.tail, GridPos { x: 4, y: 5 });
    assert_eq!(game.tail_direction, Direction::East);
    assert_eq!(game.directions, vec![Direction::North]);
    game.tick();
    // at the corner the cell ahead is no longer a segment: take the turn
    assert_eq!(game.tail, GridPos { x: 4, y: 6 });
    assert_eq!(game.tail_direction, Direction::North);
    assert!(game.directions.is_empty());
}

#[test]
fn draw_records_three_commands_per_tile() {
    let mut game = test_game();
    let mut cmd = CommandBuffer::new(9, false);
    cmd.begin();
    game.draw(&mut cmd, 12);
    assert_eq!(cmd.commands.len(), 300);
    let draws = cmd
        .commands
        .iter()
        .filter(|c| matches!(c, Command::Draw { .. }))
        .count();
    assert_eq!(draws, 100);
    // every tile's binding was published for the frame
    assert!(game.tiles.iter().all(|t| t.descriptor_set.published.is_some()));
    // first tile: bind set, bind vertex buffer, draw
    assert_eq!(
        cmd.commands[0],
        Command::BindDescriptorSet { pipeline_layout: 12, slot: 0, set: game.tiles[0].descriptor_set.set }
    );
    assert_eq!(
        cmd.commands[1],
        Command::BindVertexBuffer { binding: 0, buffer: game.tiles[0].vertex_buffer.buffer }
    );
    assert_eq!(
        cmd.commands[2],
        Command::Draw { vertex_count: 6, instance_count: 1, first_vertex: 0, first_instance: 0 }
    );
}
