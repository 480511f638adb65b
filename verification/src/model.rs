//! The game's data model: grid positions, movement directions, the snake,
//! collectibles, and the world that owns them all.

use vstd::prelude::*;

verus! {

/// How many collectibles the world keeps on the grid by default.
pub const DEFAULT_CAPACITY: u16 = 4;

/// A cell of the grid. Both coordinates are bounded by the world's
/// `max_x` / `max_y` (inclusive).
#[derive(Clone, Copy, PartialEq, Eq, Structural, Debug)]
pub struct Position {
    pub x: u16,
    pub y: u16,
}

/// The four directions the snake can travel in.
#[derive(Clone, Copy, PartialEq, Eq, Structural, Debug)]
pub enum Direction {
    Left,
    Right,
    Up,
    Down,
}

impl Direction {
    /// The exact opposite direction.
    pub open spec fn reverse_spec(self) -> Direction {
        match self {
            Direction::Left => Direction::Right,
            Direction::Right => Direction::Left,
            Direction::Up => Direction::Down,
            Direction::Down => Direction::Up,
        }
    }

    /// The exact opposite direction: the one the snake may never turn to in
    /// a single input, since it would fold the head onto the neck.
    pub fn reverse(self) -> (r: Direction)
        ensures
            r == self.reverse_spec(),
    {
        match self {
            Direction::Left => Direction::Right,
            Direction::Right => Direction::Left,
            Direction::Up => Direction::Down,
            Direction::Down => Direction::Up,
        }
    }
}

/// The moving actor: an ordered body (head at index 0, tail last), the
/// current travel direction, and a flag deferring growth to the next tick.
pub struct Snake {
    pub direction: Direction,
    pub body: Vec<Position>,
    pub grow: bool,
}

/// A consumable item: a grid position plus an active flag. Inactive
/// collectibles are respawned by the next update step.
#[derive(Clone, Copy, PartialEq, Eq, Structural, Debug)]
pub struct Collectible {
    pub active: bool,
    pub pos: Position,
}

/// The single mutable state root of a game session.
pub struct World {
    pub snake: Snake,
    pub collectibles: Vec<Collectible>,
    /// Largest valid x coordinate (inclusive).
    pub max_x: u16,
    /// Largest valid y coordinate (inclusive).
    pub max_y: u16,
    /// How many collectibles the update step keeps on the grid.
    pub capacity: u16,
    /// False once the player has quit; the loop stops at the next check.
    pub running: bool,
}

/// Whether `p` lies on the grid with bounds `max_x` / `max_y`.
pub open spec fn in_bounds(p: Position, max_x: u16, max_y: u16) -> bool {
    p.x <= max_x && p.y <= max_y
}

impl World {
    /// Well-formedness: the snake always has at least one segment, every
    /// position lies on the grid, the grid is at least the minimum playable
    /// size, and the collectible collection never outgrows its capacity.
    pub open spec fn wf(self) -> bool {
        &&& self.max_x >= 2
        &&& self.max_y >= 2
        &&& self.snake.body@.len() >= 1
        &&& forall|i: int|
            0 <= i < self.snake.body@.len() ==> in_bounds(
                #[trigger] self.snake.body@[i],
                self.max_x,
                self.max_y,
            )
        &&& self.collectibles@.len() <= self.capacity
        &&& forall|i: int|
            0 <= i < self.collectibles@.len() ==> in_bounds(
                (#[trigger] self.collectibles@[i]).pos,
                self.max_x,
                self.max_y,
            )
    }

    /// The head's current position.
    pub open spec fn head(self) -> Position {
        self.snake.body@[0]
    }

    /// Build a world from an explicit initial snake body, with no
    /// collectibles placed yet.
    pub fn new(
        max_x: u16,
        max_y: u16,
        body: Vec<Position>,
        direction: Direction,
        capacity: u16,
    ) -> (w: World)
        requires
            max_x >= 2,
            max_y >= 2,
            body@.len() >= 1,
            forall|i: int| 0 <= i < body@.len() ==> in_bounds(#[trigger] body@[i], max_x, max_y),
        ensures
            w.wf(),
            w.snake.body@ == body@,
            w.snake.direction == direction,
            w.snake.grow == false,
            w.collectibles@.len() == 0,
            w.max_x == max_x,
            w.max_y == max_y,
            w.capacity == capacity,
            w.running == true,
    {
        World {
            snake: Snake { direction, body, grow: false },
            collectibles: Vec::new(),
            max_x,
            max_y,
            capacity,
            running: true,
        }
    }

    /// The stock starting layout: a six-segment snake near the centre of the
    /// grid, heading left, with the default collectible capacity.
    pub fn initial(max_x: u16, max_y: u16) -> (w: World)
        requires
            max_x >= 6,
            max_y >= 2,
        ensures
            w.wf(),
            w.snake.body@ =~= seq![
                Position { x: max_x / 2, y: (max_y / 2 - 1) as u16 },
                Position { x: max_x / 2, y: max_y / 2 },
                Position { x: (max_x / 2 + 1) as u16, y: max_y / 2 },
                Position { x: (max_x / 2 + 2) as u16, y: max_y / 2 },
                Position { x: (max_x / 2 + 3) as u16, y: max_y / 2 },
                Position { x: (max_x / 2 + 3) as u16, y: (max_y / 2 + 1) as u16 },
            ],
            w.snake.direction == Direction::Left,
            w.snake.grow == false,
            w.collectibles@.len() == 0,
            w.max_x == max_x,
            w.max_y == max_y,
            w.capacity == DEFAULT_CAPACITY,
            w.running == true,
    {
        let cx: u16 = max_x / 2;
        let cy: u16 = max_y / 2;
        let mut body: Vec<Position> = Vec::new();
        body.push(Position { x: cx, y: cy - 1 });
        body.push(Position { x: cx, y: cy });
        body.push(Position { x: cx + 1, y: cy });
        body.push(Position { x: cx + 2, y: cy });
        body.push(Position { x: cx + 3, y: cy });
        body.push(Position { x: cx + 3, y: cy + 1 });
        World::new(max_x, max_y, body, Direction::Left, DEFAULT_CAPACITY)
    }

    /// Place one more active collectible by hand; useful to set up a
    /// deterministic scene before the update step takes over respawning.
    pub fn add_collectible(&mut self, pos: Position)
        requires
            old(self).wf(),
            old(self).collectibles@.len() < old(self).capacity,
            in_bounds(pos, old(self).max_x, old(self).max_y),
        ensures
            final(self).wf(),
            final(self).collectibles@ == old(self).collectibles@.push(
                Collectible { active: true, pos },
            ),
            final(self).snake == old(self).snake,
            final(self).max_x == old(self).max_x,
            final(self).max_y == old(self).max_y,
            final(self).capacity == old(self).capacity,
            final(self).running == old(self).running,
    {
        self.collectibles.push(Collectible { active: true, pos });
    }
}

/// Derive the playable grid bounds from a terminal size of `width` columns
/// by `height` rows: each cell is two columns wide, and a small margin is
/// kept at the right and bottom edges. Returns `None` when the display is
/// too small for the minimum playable grid.
pub fn grid_from_display(width: u16, height: u16) -> (r: Option<(u16, u16)>)
    ensures
        (width / 2 >= 3 && height >= 4) ==> r == Some(
            (((width / 2 - 1) as u16, (height - 2) as u16)),
        ),
        !(width / 2 >= 3 && height >= 4) ==> r is None,
        r matches Some(b) ==> b.0 >= 2 && b.1 >= 2,
{
    if width / 2 >= 3 && height >= 4 {
        Some((width / 2 - 1, height - 2))
    } else {
        None
    }
}

} // verus!
