//! The grid game: a ten-by-ten board of tiles, a snake that advances one
//! cell per tick, and an apple that respawns on a free cell when eaten.
//!
//! The board is a dense vector of one hundred tiles, row by row: the tile of
//! cell `(x, y)` sits at index `x * 10 + y`. The snake is tracked by its head
//! and tail cells, the direction each moves in, and a queue of the turns the
//! head has taken that the tail has not reached yet. Running into the border
//! or into the snake's own body ends the process, so both are excluded by
//! precondition here.

use vstd::prelude::*;

use rand::Rng;

use crate::commands::{Command, CommandBuffer};
use crate::device::Device;
use crate::memory::{has_matching_type, MEMORY_HOST_COHERENT, MEMORY_HOST_VISIBLE};
use crate::tile::{color_payload, tile_draw_commands, tile_drawn, Tile, TileState};

verus! {

/// Cells per board side.
pub const GRID_DIM: i8 = 10;
/// Cells on the board.
pub const TILE_COUNT: usize = 100;
/// Vertices in one tile's two-triangle quad.
pub const TILE_VERTEX_COUNT: u32 = 6;
/// Bytes of one tile's vertex payload: six vertices of two four-byte
/// components each.
pub const TILE_VERTEX_BYTES: usize = 48;

/// A direction of movement on the board.
#[derive(Debug, Clone, Copy, PartialEq, Eq, Structural)]
pub enum Direction {
    North,
    South,
    West,
    East,
}

/// A board cell.
#[derive(Debug, Clone, Copy, PartialEq, Eq, Structural)]
pub struct GridPos {
    pub x: i8,
    pub y: i8,
}

/// The cell lies on the board.
pub open spec fn in_bounds(p: GridPos) -> bool {
    &&& 0 <= p.x < 10
    &&& 0 <= p.y < 10
}

/// Index of a cell in the tile vector.
pub open spec fn tile_index(p: GridPos) -> int {
    p.x * 10 + p.y
}

/// The cell one step from `p` in direction `d`. North is up: it increases
/// `y`.
pub open spec fn stepped(p: GridPos, d: Direction) -> GridPos {
    match d {
        Direction::North => GridPos { x: p.x, y: (p.y + 1) as i8 },
        Direction::South => GridPos { x: p.x, y: (p.y - 1) as i8 },
        Direction::West => GridPos { x: (p.x - 1) as i8, y: p.y },
        Direction::East => GridPos { x: (p.x + 1) as i8, y: p.y },
    }
}

/// The state the board starts in: a three-segment snake lying west to east
/// with its head at `(4, 5)`, and one apple at `(7, 5)`.
pub open spec fn initial_tile_state(x: int, y: int) -> TileState {
    if (x == 2 || x == 3 || x == 4) && y == 5 {
        TileState::Snake
    } else if x == 7 && y == 5 {
        TileState::Apple
    } else {
        TileState::Empty
    }
}

/// The game and the drawable board it owns.
pub struct Game {
    /// One tile per cell, row by row: cell `(x, y)` at index `x * 10 + y`.
    pub tiles: Vec<Tile>,
    pub current_direction: Direction,
    /// The cell the snake's head occupies.
    pub head: GridPos,
    /// The cell the snake's tail occupies.
    pub tail: GridPos,
    /// The direction the tail is moving in.
    pub tail_direction: Direction,
    /// Queued turns, oldest first: how the tail learns where the body turned.
    pub directions: Vec<Direction>,
}

/// The state of the tile at cell `p`.
pub open spec fn state_at(g: Game, p: GridPos) -> TileState {
    g.tiles@[tile_index(p)].tile_state
}

impl Game {
    /// The board is complete, every tile is sound, and head and tail lie on
    /// it.
    pub open spec fn wf(self) -> bool {
        &&& self.tiles@.len() == 100
        &&& in_bounds(self.head)
        &&& in_bounds(self.tail)
        &&& forall|i: int| 0 <= i < 100 ==> (#[trigger] self.tiles@[i]).wf()
    }

    /// Lay out the board: one tile per cell with the caller-supplied vertex
    /// payload for that cell, in the initial state — snake at `(2..4, 5)`,
    /// apple at `(7, 5)`, everything else empty. The payloads arrive row by
    /// row, one forty-eight-byte quad per cell.
    pub fn new(
        device: &mut Device,
        descriptor_set_layout: u64,
        vertex_payloads: Vec<Vec<u8>>,
    ) -> (g: Game)
        requires
            old(device).wf(),
            old(device).handles_left(600),
            has_matching_type(
                old(device).memory.types@,
                old(device).buffer_type_bits,
                MEMORY_HOST_VISIBLE | MEMORY_HOST_COHERENT,
            ),
            vertex_payloads@.len() == 100,
            forall|i: int| 0 <= i < 100 ==> (#[trigger] vertex_payloads@[i])@.len() == 48,
        ensures
            g.wf(),
            forall|i: int|
                0 <= i < 100 ==> (#[trigger] g.tiles@[i]).tile_state == initial_tile_state(
                    i / 10,
                    i % 10,
                ),
            forall|i: int|
                0 <= i < 100 ==> (#[trigger] g.tiles@[i]).vertex_buffer.contents@
                    == vertex_payloads@[i]@,
            forall|i: int| 0 <= i < 100 ==> (#[trigger] g.tiles@[i]).vertex_buffer.count == 6,
            forall|i: int|
                0 <= i < 100 ==> (#[trigger] g.tiles@[i]).uniform_buffer.contents@
                    == color_payload(g.tiles@[i].tile_state),
            g.current_direction == Direction::East,
            g.head == (GridPos { x: 4, y: 5 }),
            g.tail == (GridPos { x: 2, y: 5 }),
            g.tail_direction == Direction::East,
            g.directions@.len() == 0,
            final(device).next_handle == old(device).next_handle + 600,
            final(device).memory == old(device).memory,
            final(device).buffer_type_bits == old(device).buffer_type_bits,
    {
        let ghost all_payloads = vertex_payloads@;
        let ghost start_handle = device.next_handle;
        let mut remaining = vertex_payloads;
        let mut tiles: Vec<Tile> = Vec::new();
        let mut k: usize = 0;
        while k < 100
            invariant
                old(device).wf(),
                device.wf(),
                device.memory == old(device).memory,
                device.buffer_type_bits == old(device).buffer_type_bits,
                device.next_handle == start_handle + 6 * k,
                start_handle + 600 <= u64::MAX,
                has_matching_type(
                    device.memory.types@,
                    device.buffer_type_bits,
                    MEMORY_HOST_VISIBLE | MEMORY_HOST_COHERENT,
                ),
                k <= 100,
                all_payloads.len() == 100,
                forall|i: int| 0 <= i < 100 ==> (#[trigger] all_payloads[i])@.len() == 48,
                remaining@ == all_payloads.skip(k as int),
                tiles@.len() == k,
                forall|i: int| 0 <= i < k ==> (#[trigger] tiles@[i]).wf(),
                forall|i: int|
                    0 <= i < k ==> (#[trigger] tiles@[i]).tile_state == initial_tile_state(
                        i / 10,
                        i % 10,
                    ),
                forall|i: int|
                    0 <= i < k ==> (#[trigger] tiles@[i]).vertex_buffer.contents@
                        == all_payloads[i]@,
                forall|i: int| 0 <= i < k ==> (#[trigger] tiles@[i]).vertex_buffer.count == 6,
                forall|i: int|
                    0 <= i < k ==> (#[trigger] tiles@[i]).uniform_buffer.contents@
                        == color_payload(tiles@[i].tile_state),
            decreases 100 - k,
        {
            let x = k / 10;
            let y = k % 10;
            let state = if (x == 2 || x == 3 || x == 4) && y == 5 {
                TileState::Snake
            } else if x == 7 && y == 5 {
                TileState::Apple
            } else {
                TileState::Empty
            };
            let payload = remaining.remove(0);
            proof {
                assert(payload@ == all_payloads[k as int]@);
                assert(all_payloads.skip(k as int).remove(0) =~= all_payloads.skip(k + 1));
            }
            let tile = Tile::new(device, descriptor_set_layout, payload, 6, state);
            tiles.push(tile);
            k = k + 1;
        }
        Game {
            tiles,
            current_direction: Direction::East,
            head: GridPos { x: 4, y: 5 },
            tail: GridPos { x: 2, y: 5 },
            tail_direction: Direction::East,
            directions: Vec::new(),
        }
    }
    /// Steer the snake. A turn straight back into the body is ignored; any
    /// other request becomes the head's direction, and a turn the tail does
    /// not already know about is queued for it.
    pub fn input(&mut self, direction: Direction)
        ensures
            final(self).current_direction == allowed_turn(old(self).current_direction, direction),
            final(self).directions@ == if queues_turn(
                *old(self),
                allowed_turn(old(self).current_direction, direction),
            ) {
                old(self).directions@.push(
                    allowed_turn(old(self).current_direction, direction),
                )
            } else {
                old(self).directions@
            },
            final(self).tiles == old(self).tiles,
            final(self).head == old(self).head,
            final(self).tail == old(self).tail,
            final(self).tail_direction == old(self).tail_direction,
    {
        let direction = match direction {
            Direction::North => if self.current_direction != Direction::South {
                Direction::North
            } else {
                self.current_direction
            },
            Direction::South => if self.current_direction != Direction::North {
                Direction::South
            } else {
                self.current_direction
            },
            Direction::West => if self.current_direction != Direction::East {
                Direction::West
            } else {
                self.current_direction
            },
            Direction::East => if self.current_direction != Direction::West {
                Direction::East
            } else {
                self.current_direction
            },
        };
        self.current_direction = direction;
        if self.tail_direction != direction {
            let n = self.directions.len();
            if n == 0 || self.directions[n - 1] != direction {
                self.directions.push(direction);
            }
        }
    }

    /// Advance the snake one cell. The head grows into its target cell; if
    /// that cell held the apple the snake keeps its tail and a new apple
    /// appears on a cell that was empty, drawn uniformly among them;
    /// otherwise the tail cell is vacated and the tail advances, taking the
    /// oldest queued turn when the cell ahead of it no longer holds the
    /// body. Hitting the border or the body is a fatal stop in this system
    /// and both are excluded by `tick_enabled`.
    pub fn tick(&mut self)
        requires
            old(self).wf(),
            tick_enabled(*old(self)),
        ensures
            final(self).wf(),
            final(self).head == head_target(*old(self)),
            final(self).current_direction == old(self).current_direction,
            forall|i: int|
                0 <= i < 100 ==> tile_resources_unchanged(
                    #[trigger] old(self).tiles@[i],
                    final(self).tiles@[i],
                ),
            !eats_apple(*old(self)) ==> {
                &&& final(self).tail_direction == post_tail_direction(*old(self))
                &&& final(self).tail == stepped(old(self).tail, post_tail_direction(*old(self)))
                &&& final(self).directions@ == if tail_turns(*old(self)) {
                    old(self).directions@.skip(1)
                } else {
                    old(self).directions@
                }
                &&& forall|i: int|
                    0 <= i < 100 ==> (#[trigger] final(self).tiles@[i]).tile_state
                        == advanced_state_at(*old(self), i)
            },
            eats_apple(*old(self)) ==> {
                &&& final(self).tail == old(self).tail
                &&& final(self).tail_direction == old(self).tail_direction
                &&& final(self).directions@ == old(self).directions@
                &&& exists|j: int| apple_respawned(*old(self), *final(self), j)
            },
    {
        let forward = step(self.head, self.current_direction);
        let fwd_idx = cell_index(forward);
        // reading the forward tile off the board, or onto a body segment,
        // would be a fatal stop; both are excluded by `tick_enabled`
        let ate_apple = matches!(self.tiles[fwd_idx].tile_state, TileState::Apple);
        self.tiles[fwd_idx].tile_state = TileState::Snake;

        if !ate_apple {
            let tail_forward = step(self.tail, self.tail_direction);
            let turns = if !pos_in_bounds(tail_forward) {
                true
            } else {
                !matches!(
                    self.tiles[cell_index(tail_forward)].tile_state,
                    TileState::Snake
                )
            };
            proof {
                assert(turns == tail_turns(*old(self)));
            }
            if turns {
                self.tail_direction = self.directions.remove(0);
                proof {
                    assert(self.directions@ =~= old(self).directions@.skip(1));
                }
            }
            let tail_idx = cell_index(self.tail);
            self.tiles[tail_idx].tile_state = TileState::Empty;
            self.tail = step(self.tail, self.tail_direction);
        }
        self.head = forward;

        if ate_apple {
            let ghost grown = self.tiles@;
            let mut empty_count: u32 = 0;
            let mut i: usize = 0;
            while i < 100
                invariant
                    self.tiles@.len() == 100,
                    i <= 100,
                    empty_count as int == count_empty(self.tiles@, i as int),
                    empty_count <= i,
                decreases 100 - i,
            {
                if matches!(self.tiles[i].tile_state, TileState::Empty) {
                    empty_count = empty_count + 1;
                }
                i = i + 1;
            }
            proof {
                let w = choose|j: int|
                    0 <= j < 100 && j != tile_index(head_target(*old(self))) && old(
                        self,
                    ).tiles@[j].tile_state == TileState::Empty;
                assert(self.tiles@[w].tile_state == TileState::Empty);
                lemma_count_empty_at_least_one(self.tiles@, w, 100);
            }
            let r = rand_below(empty_count);
            let j = nth_empty_index(&self.tiles, r);
            self.tiles[j].tile_state = TileState::Apple;
            proof {
                assert(apple_respawned(*old(self), *final(self), j as int));
            }
        }
    }

    /// Draw the whole board: every tile in row order, each recording its
    /// descriptor bind, vertex bind and draw into the frame's command
    /// buffer.
    pub fn draw(&mut self, cmd: &mut CommandBuffer, pipeline_layout: u64)
        requires
            old(self).wf(),
            old(cmd).recording,
        ensures
            final(self).wf(),
            forall|i: int|
                0 <= i < 100 ==> tile_drawn(
                    #[trigger] old(self).tiles@[i],
                    final(self).tiles@[i],
                ),
            final(self).current_direction == old(self).current_direction,
            final(self).head == old(self).head,
            final(self).tail == old(self).tail,
            final(self).tail_direction == old(self).tail_direction,
            final(self).directions == old(self).directions,
            final(cmd).recording,
            final(cmd).commands@ == old(cmd).commands@ + draw_sequence(
                old(self).tiles@,
                pipeline_layout,
                100,
            ),
            final(cmd).handle == old(cmd).handle,
            final(cmd).one_time_submit == old(cmd).one_time_submit,
    {
        let ghost tiles0 = self.tiles@;
        let ghost cmds0 = cmd.commands@;
        let mut k: usize = 0;
        while k < 100
            invariant
                old(self).wf(),
                self.tiles@.len() == 100,
                tiles0.len() == 100,
                k <= 100,
                self.head == old(self).head,
                self.tail == old(self).tail,
                self.current_direction == old(self).current_direction,
                self.tail_direction == old(self).tail_direction,
                self.directions == old(self).directions,
                forall|i: int| 0 <= i < 100 ==> (#[trigger] tiles0[i]).wf(),
                forall|i: int|
                    0 <= i < k ==> tile_drawn(#[trigger] tiles0[i], self.tiles@[i]),
                forall|i: int| k <= i < 100 ==> #[trigger] self.tiles@[i] == tiles0[i],
                forall|i: int| 0 <= i < 100 ==> (#[trigger] self.tiles@[i]).wf(),
                cmd.recording,
                cmd.handle == old(cmd).handle,
                cmd.one_time_submit == old(cmd).one_time_submit,
                cmd.commands@ == cmds0 + draw_sequence(tiles0, pipeline_layout, k as int),
            decreases 100 - k,
        {
            proof {
                assert(tile_draw_commands(self.tiles@[k as int], pipeline_layout)
                    == tile_draw_commands(tiles0[k as int], pipeline_layout));
            }
            self.tiles[k].draw(cmd, pipeline_layout);
            k = k + 1;
        }
    }
}

/// The cell the head moves into this tick.
pub open spec fn head_target(g: Game) -> GridPos {
    stepped(g.head, g.current_direction)
}

/// The head is about to move onto the apple.
pub open spec fn eats_apple(g: Game) -> bool {
    state_at(g, head_target(g)) == TileState::Apple
}

/// The state of cell `p` once the head has been placed, before the tail has
/// moved.
pub open spec fn mid_state_at(g: Game, p: GridPos) -> TileState {
    if tile_index(p) == tile_index(head_target(g)) {
        TileState::Snake
    } else {
        state_at(g, p)
    }
}

/// The tail has reached a turn: the cell ahead of it (once the head is
/// placed) is off the board or no longer a snake segment, so the tail takes
/// the oldest queued turn.
pub open spec fn tail_turns(g: Game) -> bool {
    let t = stepped(g.tail, g.tail_direction);
    !in_bounds(t) || mid_state_at(g, t) != TileState::Snake
}

/// The direction the tail moves in this tick.
pub open spec fn post_tail_direction(g: Game) -> Direction {
    if tail_turns(g) {
        g.directions@[0]
    } else {
        g.tail_direction
    }
}

/// Once the head has grown onto the apple, some cell is still empty for the
/// next apple.
pub open spec fn has_empty_cell_after_growth(g: Game) -> bool {
    exists|i: int|
        0 <= i < 100 && i != tile_index(head_target(g)) && (#[trigger] g.tiles@[i]).tile_state
            == TileState::Empty
}

/// Everything of the tile but its state: a tick flips states only.
pub open spec fn tile_resources_unchanged(a: Tile, b: Tile) -> bool {
    &&& b.vertex_buffer == a.vertex_buffer
    &&& b.uniform_buffer == a.uniform_buffer
    &&& b.descriptor_set == a.descriptor_set
}

/// A tick may run: the head's target cell is on the board and free of the
/// body, the tail has a queued turn wherever it needs one, the tail's own
/// move stays on the board, and if the apple is eaten a free cell remains
/// for the next one. Outside these conditions this system stops fatally.
pub open spec fn tick_enabled(g: Game) -> bool {
    &&& in_bounds(head_target(g))
    &&& state_at(g, head_target(g)) != TileState::Snake
    &&& !eats_apple(g) ==> (tail_turns(g) ==> g.directions@.len() > 0)
    &&& !eats_apple(g) ==> in_bounds(stepped(g.tail, post_tail_direction(g)))
    &&& eats_apple(g) ==> has_empty_cell_after_growth(g)
}

/// The board after a tick that did not eat: the head's target cell became a
/// snake segment, the vacated tail cell became empty, everything else stands.
pub open spec fn advanced_state_at(pre: Game, i: int) -> TileState {
    if i == tile_index(pre.tail) {
        TileState::Empty
    } else if i == tile_index(head_target(pre)) {
        TileState::Snake
    } else {
        pre.tiles@[i].tile_state
    }
}

/// The board after a tick that ate: cell `j` — previously empty — holds the
/// new apple, the head's target cell became a snake segment, everything else
/// stands, and the tail did not move.
pub open spec fn apple_respawned(pre: Game, post: Game, j: int) -> bool {
    &&& 0 <= j < 100
    &&& j != tile_index(head_target(pre))
    &&& pre.tiles@[j].tile_state == TileState::Empty
    &&& forall|i: int|
        0 <= i < 100 ==> (#[trigger] post.tiles@[i]).tile_state == (if i == j {
            TileState::Apple
        } else if i == tile_index(head_target(pre)) {
            TileState::Snake
        } else {
            pre.tiles@[i].tile_state
        })
}

/// Number of empty tiles among the first `n`.
pub open spec fn count_empty(tiles: Seq<Tile>, n: int) -> int
    decreases n,
{
    if n <= 0 {
        0
    } else {
        count_empty(tiles, n - 1) + if tiles[n - 1].tile_state == TileState::Empty {
            1int
        } else {
            0int
        }
    }
}

proof fn lemma_count_empty_nonneg(tiles: Seq<Tile>, n: int)
    ensures
        count_empty(tiles, n) >= 0,
    decreases n,
{
    if n > 0 {
        lemma_count_empty_nonneg(tiles, n - 1);
    }
}

proof fn lemma_count_empty_at_least_one(tiles: Seq<Tile>, j: int, n: int)
    requires
        0 <= j < n,
        tiles[j].tile_state == TileState::Empty,
    ensures
        count_empty(tiles, n) >= 1,
    decreases n,
{
    if j < n - 1 {
        lemma_count_empty_at_least_one(tiles, j, n - 1);
    } else {
        lemma_count_empty_nonneg(tiles, n - 1);
    }
}

/// True when the cell lies on the board.
pub fn pos_in_bounds(p: GridPos) -> (b: bool)
    ensures
        b == in_bounds(p),
{
    0 <= p.x && p.x < 10 && 0 <= p.y && p.y < 10
}

/// The cell one step from `p` in direction `d`.
pub fn step(p: GridPos, d: Direction) -> (r: GridPos)
    requires
        in_bounds(p),
    ensures
        r == stepped(p, d),
{
    match d {
        Direction::North => GridPos { x: p.x, y: p.y + 1 },
        Direction::South => GridPos { x: p.x, y: p.y - 1 },
        Direction::West => GridPos { x: p.x - 1, y: p.y },
        Direction::East => GridPos { x: p.x + 1, y: p.y },
    }
}

/// Index of a cell in the tile vector.
pub fn cell_index(p: GridPos) -> (i: usize)
    requires
        in_bounds(p),
    ensures
        i == tile_index(p),
        i < 100,
{
    (p.x as usize) * 10 + (p.y as usize)
}

/// Relies on rand::Rng::gen_range over rand::thread_rng: a draw from the
/// half-open range below `n` is always below `n`.
#[verifier::external_body]
fn rand_below(n: u32) -> (r: u32)
    requires
        n >= 1,
    ensures
        r < n,
{
    rand::thread_rng().gen_range(0..n)
}

/// Index of some empty tile: the one reached after skipping `r` empties.
fn nth_empty_index(tiles: &Vec<Tile>, r: u32) -> (j: usize)
    requires
        tiles@.len() == 100,
        (r as int) < count_empty(tiles@, 100),
    ensures
        j < 100,
        tiles@[j as int].tile_state == TileState::Empty,
{
    let mut seen: u32 = 0;
    let mut i: usize = 0;
    while i < 100
        invariant
            tiles@.len() == 100,
            (r as int) < count_empty(tiles@, 100),
            i <= 100,
            seen as int == count_empty(tiles@, i as int),
            seen <= r,
        decreases 100 - i,
    {
        if matches!(tiles[i].tile_state, TileState::Empty) {
            if seen == r {
                return i;
            }
            seen = seen + 1;
        }
        i = i + 1;
    }
    proof {
        assert(seen as int == count_empty(tiles@, 100));
        assert(false);
    }
    0
}

/// The requested direction unless it points straight back into the body, in
/// which case the current direction stands.
pub open spec fn allowed_turn(current: Direction, requested: Direction) -> Direction {
    match requested {
        Direction::North => if current != Direction::South {
            Direction::North
        } else {
            current
        },
        Direction::South => if current != Direction::North {
            Direction::South
        } else {
            current
        },
        Direction::West => if current != Direction::East {
            Direction::West
        } else {
            current
        },
        Direction::East => if current != Direction::West {
            Direction::East
        } else {
            current
        },
    }
}

/// The turn is news to the tail: it differs from the tail's direction and
/// from the newest queued turn.
pub open spec fn queues_turn(g: Game, d: Direction) -> bool {
    &&& g.tail_direction != d
    &&& (g.directions@.len() == 0 || g.directions@.last() != d)
}

/// The commands drawing the first `n` tiles records, in row order.
pub open spec fn draw_sequence(tiles: Seq<Tile>, pipeline_layout: u64, n: int) -> Seq<Command>
    decreases n,
{
    if n <= 0 {
        Seq::empty()
    } else {
        draw_sequence(tiles, pipeline_layout, n - 1) + tile_draw_commands(
            tiles[n - 1],
            pipeline_layout,
        )
    }
}

} // verus!
