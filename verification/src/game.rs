//! The game loop's decision logic: mapping key presses to quit or
//! direction-change intents, applying them to the world, and the one full
//! loop iteration (input, render, update) as a single transition.

use vstd::prelude::*;
use crate::model::{Direction, World};
use crate::render::{frame_spec, render, DrawOp};
use crate::update::{update, update_rel};

verus! {

/// The direction a recognized movement key asks for: `w`/`a`/`s`/`d` map
/// to Up/Left/Down/Right; everything else is no movement intent.
pub open spec fn direction_of_key(key: char) -> Option<Direction> {
    if key == 'w' {
        Some(Direction::Up)
    } else if key == 'a' {
        Some(Direction::Left)
    } else if key == 's' {
        Some(Direction::Down)
    } else if key == 'd' {
        Some(Direction::Right)
    } else {
        None
    }
}

/// The travel direction after one (possibly absent) key press: a movement
/// intent is applied unless it is the exact reverse of the current
/// direction, which is silently ignored.
pub open spec fn next_direction(cur: Direction, key: Option<char>) -> Direction {
    match key {
        None => cur,
        Some(k) => match direction_of_key(k) {
            None => cur,
            Some(d) => if d == cur.reverse_spec() {
                cur
            } else {
                d
            },
        },
    }
}

/// Whether the session is still running after one (possibly absent) key
/// press: only the quit key `q` stops it.
pub open spec fn next_running(cur: bool, key: Option<char>) -> bool {
    if key == Some('q') {
        false
    } else {
        cur
    }
}

/// Reverse-input law: a key asking for the exact reverse of the current
/// travel direction never changes the direction.
pub proof fn lemma_reverse_ignored(cur: Direction, key: char)
    requires
        direction_of_key(key) == Some(cur.reverse_spec()),
    ensures
        next_direction(cur, Some(key)) == cur,
{
}

/// Interpret one key press: `q` quits, `w`/`a`/`s`/`d` set the direction
/// unless reversing, anything else (or no input) changes nothing. Nothing
/// but the direction and the running flag is ever touched.
pub fn handle_input(world: &mut World, key: Option<char>)
    ensures
        final(world).snake.direction == next_direction(old(world).snake.direction, key),
        final(world).running == next_running(old(world).running, key),
        final(world).snake.body == old(world).snake.body,
        final(world).snake.grow == old(world).snake.grow,
        final(world).collectibles == old(world).collectibles,
        final(world).max_x == old(world).max_x,
        final(world).max_y == old(world).max_y,
        final(world).capacity == old(world).capacity,
{
    match key {
        None => {},
        Some(k) => {
            if k == 'q' {
                world.running = false;
            } else if k == 'w' {
                if world.snake.direction != Direction::Down {
                    world.snake.direction = Direction::Up;
                }
            } else if k == 'a' {
                if world.snake.direction != Direction::Right {
                    world.snake.direction = Direction::Left;
                }
            } else if k == 's' {
                if world.snake.direction != Direction::Up {
                    world.snake.direction = Direction::Down;
                }
            } else if k == 'd' {
                if world.snake.direction != Direction::Left {
                    world.snake.direction = Direction::Right;
                }
            }
        },
    }
}

/// One full loop iteration while running: interpret the latest input,
/// render the frame of the state the input produced, then advance the
/// world by one tick. The returned frame is the one to put on the screen
/// for this iteration.
pub fn tick(world: &mut World, key: Option<char>) -> (frame: Vec<DrawOp>)
    requires
        old(world).wf(),
    ensures
        final(world).wf(),
        frame@ == frame_spec(old(world).collectibles@, old(world).snake.body@),
        update_rel(
            old(world).snake.body@,
            old(world).collectibles@,
            old(world).snake.grow,
            next_direction(old(world).snake.direction, key),
            old(world).max_x,
            old(world).max_y,
            old(world).capacity,
            next_running(old(world).running, key),
            *final(world),
        ),
{
    handle_input(world, key);
    let frame = render(world);
    update(world);
    frame
}

} // verus!
