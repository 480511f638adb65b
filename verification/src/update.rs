//! The per-tick update step: consumption resolution, growth application,
//! body follow, head advance, and collectible spawning/respawning.

use vstd::prelude::*;
use crate::geometry::{advance, wrap};
use crate::model::{in_bounds, Collectible, Direction, Position, World};

verus! {

/// Whether some active collectible sits on `head`.
pub open spec fn hits_collectible(golds: Seq<Collectible>, head: Position) -> bool {
    exists|i: int| 0 <= i < golds.len() && golds[i].active && golds[i].pos == head
}

/// The collectibles after consumption resolution: every active collectible
/// under the head is switched off, all others are untouched.
pub open spec fn after_consumption(golds: Seq<Collectible>, head: Position) -> Seq<Collectible> {
    Seq::new(
        golds.len(),
        |i: int|
            if golds[i].active && golds[i].pos == head {
                Collectible { active: false, pos: golds[i].pos }
            } else {
                golds[i]
            },
    )
}

/// The head one cell further along `dir`, wrapping at the grid edges:
/// Left/Right move along x, Up/Down along y.
pub open spec fn stepped_head(head: Position, dir: Direction, max_x: u16, max_y: u16) -> Position {
    match dir {
        Direction::Left => Position { x: wrap(head.x - 1, max_x) as u16, y: head.y },
        Direction::Right => Position { x: wrap(head.x + 1, max_x) as u16, y: head.y },
        Direction::Up => Position { x: head.x, y: wrap(head.y - 1, max_y) as u16 },
        Direction::Down => Position { x: head.x, y: wrap(head.y + 1, max_y) as u16 },
    }
}

/// The body after one movement step. If `grow` is set the body gains one
/// segment at the tail end; every segment but the head takes the position
/// its predecessor held before the step, and the head advances along `dir`.
pub open spec fn stepped_body(
    body: Seq<Position>,
    grow: bool,
    dir: Direction,
    max_x: u16,
    max_y: u16,
) -> Seq<Position> {
    Seq::new(
        if grow {
            body.len() + 1
        } else {
            body.len()
        },
        |i: int|
            if i == 0 {
                stepped_head(body[0], dir, max_x, max_y)
            } else {
                body[i - 1]
            },
    )
}

/// Everything one update step promises of the world it produces, stated
/// over the parts of the pre-state. The positions of freshly spawned or
/// respawned collectibles come from a random source, so they are only
/// bounded to the grid, never pinned; everything else is exact.
pub open spec fn update_rel(
    body0: Seq<Position>,
    golds0: Seq<Collectible>,
    grow0: bool,
    dir: Direction,
    max_x: u16,
    max_y: u16,
    capacity: u16,
    running: bool,
    post: World,
) -> bool {
    let grow1 = grow0 || hits_collectible(golds0, body0[0]);
    let golds1 = after_consumption(golds0, body0[0]);
    &&& post.max_x == max_x
    &&& post.max_y == max_y
    &&& post.capacity == capacity
    &&& post.running == running
    &&& post.snake.direction == dir
    &&& post.snake.grow == false
    &&& post.snake.body@ == stepped_body(body0, grow1, dir, max_x, max_y)
    &&& post.collectibles@.len() == capacity
    &&& forall|i: int|
        0 <= i < capacity ==> (#[trigger] post.collectibles@[i]).active && in_bounds(
            post.collectibles@[i].pos,
            max_x,
            max_y,
        )
    &&& forall|i: int|
        0 <= i < golds1.len() && (#[trigger] golds1[i]).active ==> post.collectibles@[i]
            == golds1[i]
}

/// How many of the collectibles are active.
pub open spec fn active_count(golds: Seq<Collectible>) -> int
    decreases golds.len(),
{
    if golds.len() == 0 {
        0
    } else {
        active_count(golds.drop_last()) + if golds.last().active {
            1int
        } else {
            0int
        }
    }
}

proof fn lemma_active_count_le_len(golds: Seq<Collectible>)
    ensures
        0 <= active_count(golds) <= golds.len(),
    decreases golds.len(),
{
    if golds.len() > 0 {
        lemma_active_count_le_len(golds.drop_last());
    }
}

proof fn lemma_active_count_all_active(golds: Seq<Collectible>)
    requires
        forall|i: int| 0 <= i < golds.len() ==> (#[trigger] golds[i]).active,
    ensures
        active_count(golds) == golds.len(),
    decreases golds.len(),
{
    if golds.len() > 0 {
        assert(golds.last() == golds[golds.len() - 1]);
        lemma_active_count_all_active(golds.drop_last());
    }
}

/// Head-movement law: one update step moves the head exactly one cell
/// along the axis of the current direction, wrapping at 0 and at the
/// bound.
pub proof fn lemma_head_advances(w: World, post: World)
    requires
        w.wf(),
        update_rel(
            w.snake.body@,
            w.collectibles@,
            w.snake.grow,
            w.snake.direction,
            w.max_x,
            w.max_y,
            w.capacity,
            w.running,
            post,
        ),
    ensures
        post.head() == stepped_head(w.head(), w.snake.direction, w.max_x, w.max_y),
{
}

/// Body-follow law: after one update step every segment behind the head
/// stands exactly where its predecessor stood before the step.
pub proof fn lemma_body_follow(w: World, post: World, i: int)
    requires
        w.wf(),
        update_rel(
            w.snake.body@,
            w.collectibles@,
            w.snake.grow,
            w.snake.direction,
            w.max_x,
            w.max_y,
            w.capacity,
            w.running,
            post,
        ),
        1 <= i < w.snake.body@.len(),
    ensures
        post.snake.body@[i] == w.snake.body@[i - 1],
{
}

/// Capacity law: a well-formed world never holds more active collectibles
/// than its capacity, and one update step always leaves exactly `capacity`
/// collectibles, all of them active.
pub proof fn lemma_collectible_capacity(w: World, post: World)
    requires
        w.wf(),
        update_rel(
            w.snake.body@,
            w.collectibles@,
            w.snake.grow,
            w.snake.direction,
            w.max_x,
            w.max_y,
            w.capacity,
            w.running,
            post,
        ),
    ensures
        active_count(w.collectibles@) <= w.capacity,
        active_count(post.collectibles@) == post.capacity,
{
    lemma_active_count_le_len(w.collectibles@);
    lemma_active_count_all_active(post.collectibles@);
}

/// Growth-delay law: with no collectible under the head but an active one
/// on the head's next cell, the tick that moves the head onto it leaves
/// the snake's length unchanged, and the following tick (whatever
/// direction is chosen then) grows the snake by exactly one segment.
pub proof fn lemma_growth_delay(w1: World, w2: World, w3: World, c: int, dir2: Direction)
    requires
        w1.wf(),
        !w1.snake.grow,
        !hits_collectible(w1.collectibles@, w1.head()),
        0 <= c < w1.collectibles@.len(),
        w1.collectibles@[c].active,
        w1.collectibles@[c].pos == stepped_head(w1.head(), w1.snake.direction, w1.max_x, w1.max_y),
        update_rel(
            w1.snake.body@,
            w1.collectibles@,
            w1.snake.grow,
            w1.snake.direction,
            w1.max_x,
            w1.max_y,
            w1.capacity,
            w1.running,
            w2,
        ),
        update_rel(
            w2.snake.body@,
            w2.collectibles@,
            w2.snake.grow,
            dir2,
            w2.max_x,
            w2.max_y,
            w2.capacity,
            w2.running,
            w3,
        ),
    ensures
        w2.snake.body@.len() == w1.snake.body@.len(),
        w3.snake.body@.len() == w1.snake.body@.len() + 1,
{
    let golds1 = after_consumption(w1.collectibles@, w1.head());
    assert(w1.collectibles@[c].pos != w1.head()) by {
        if w1.collectibles@[c].pos == w1.head() {
            assert(hits_collectible(w1.collectibles@, w1.head()));
        }
    }
    assert(golds1[c] == w1.collectibles@[c]);
    assert(w2.collectibles@[c] == golds1[c]);
    assert(w2.head() == w1.collectibles@[c].pos);
    assert(hits_collectible(w2.collectibles@, w2.head()));
}

/// Relies on rand's `Rng::gen_range` over the inclusive range `0 ..= bound`:
/// the sampled value lies within that range, which is never empty.
#[verifier::external_body]
fn random_coord(bound: u16) -> (r: u16)
    ensures
        r <= bound,
{
    rand::Rng::gen_range(&mut rand::thread_rng(), 0..=bound)
}

/// A uniformly random position on the grid.
fn random_position(max_x: u16, max_y: u16) -> (p: Position)
    ensures
        in_bounds(p, max_x, max_y),
{
    Position { x: random_coord(max_x), y: random_coord(max_y) }
}

/// Advance the world by one tick, in the fixed order that is part of the
/// contract: resolve consumption at the head, apply pending growth, let the
/// body follow, advance the head with wraparound, then spawn collectibles
/// up to capacity and respawn every inactive one at a random cell.
#[verifier::loop_isolation(false)]
pub fn update(world: &mut World)
    requires
        old(world).wf(),
    ensures
        final(world).wf(),
        update_rel(
            old(world).snake.body@,
            old(world).collectibles@,
            old(world).snake.grow,
            old(world).snake.direction,
            old(world).max_x,
            old(world).max_y,
            old(world).capacity,
            old(world).running,
            *final(world),
        ),
{
    let ghost body0 = world.snake.body@;
    let ghost golds0 = world.collectibles@;
    let ghost grow0 = world.snake.grow;
    let head = world.snake.body[0];

    // Consumption resolution: deactivate every active collectible under the
    // head and remember that the snake has to grow.
    let mut i: usize = 0;
    while i < world.collectibles.len()
        invariant
            i <= golds0.len(),
            world.collectibles@.len() == golds0.len(),
            world.snake.body@ == body0,
            world.snake.direction == old(world).snake.direction,
            world.max_x == old(world).max_x,
            world.max_y == old(world).max_y,
            world.capacity == old(world).capacity,
            world.running == old(world).running,
            forall|j: int|
                0 <= j < i ==> world.collectibles@[j] == after_consumption(golds0, head)[j],
            forall|j: int| i <= j < golds0.len() ==> world.collectibles@[j] == golds0[j],
            world.snake.grow == (grow0 || exists|j: int|
                0 <= j < i && golds0[j].active && golds0[j].pos == head),
        decreases golds0.len() - i,
    {
        let g = world.collectibles[i];
        if g.active && g.pos == head {
            world.collectibles.set(i, Collectible { active: false, pos: g.pos });
            world.snake.grow = true;
            proof {
                assert(golds0[i as int].active && golds0[i as int].pos == head);
            }
        } else {
            proof {
                if exists|j: int| 0 <= j <= i && golds0[j].active && golds0[j].pos == head {
                    let j = choose|j: int|
                        0 <= j <= i && golds0[j].active && golds0[j].pos == head;
                    assert(j < i);
                }
            }
        }
        i += 1;
    }
    let ghost grow1 = world.snake.grow;
    let ghost golds1 = after_consumption(golds0, head);
    proof {
        assert(world.collectibles@ =~= golds1);
        assert(grow1 == (grow0 || hits_collectible(golds0, head)));
    }

    // Growth application: the appended segment's position is a placeholder;
    // the body-follow step below overwrites it at once.
    if world.snake.grow {
        world.snake.grow = false;
        let tail = world.snake.body[world.snake.body.len() - 1];
        world.snake.body.push(tail);
    }
    let ghost bodyg = world.snake.body@;

    // Body follow, tail first, so no position is overwritten before it has
    // been copied one segment backwards.
    let n: usize = world.snake.body.len();
    let mut k: usize = n;
    while k > 1
        invariant
            1 <= k <= n,
            n == world.snake.body@.len(),
            world.snake.grow == false,
            world.collectibles@ == golds1,
            forall|j: int| 0 <= j < k ==> world.snake.body@[j] == bodyg[j],
            forall|j: int| k <= j < n ==> world.snake.body@[j] == bodyg[j - 1],
            world.snake.direction == old(world).snake.direction,
            world.max_x == old(world).max_x,
            world.max_y == old(world).max_y,
            world.capacity == old(world).capacity,
            world.running == old(world).running,
        decreases k,
    {
        k -= 1;
        let p = world.snake.body[k - 1];
        world.snake.body.set(k, p);
    }

    // Head advance along the current direction, wrapping at the edges.
    let new_head = match world.snake.direction {
        Direction::Left => Position { x: advance(head.x, world.max_x, -1), y: head.y },
        Direction::Right => Position { x: advance(head.x, world.max_x, 1), y: head.y },
        Direction::Up => Position { x: head.x, y: advance(head.y, world.max_y, -1) },
        Direction::Down => Position { x: head.x, y: advance(head.y, world.max_y, 1) },
    };
    world.snake.body.set(0, new_head);
    proof {
        assert(world.snake.body@ =~= stepped_body(
            body0,
            grow1,
            old(world).snake.direction,
            old(world).max_x,
            old(world).max_y,
        ));
    }

    let ghost snake_done = world.snake;

    // Collectible spawn-to-capacity.
    while world.collectibles.len() < world.capacity as usize
        invariant
            world.collectibles@.len() <= world.capacity,
            golds1.len() <= world.collectibles@.len(),
            forall|j: int| 0 <= j < golds1.len() ==> world.collectibles@[j] == golds1[j],
            forall|j: int|
                golds1.len() <= j < world.collectibles@.len() ==> (
                #[trigger] world.collectibles@[j]).active && in_bounds(
                    world.collectibles@[j].pos,
                    world.max_x,
                    world.max_y,
                ),
            world.snake == snake_done,
            world.max_x == old(world).max_x,
            world.max_y == old(world).max_y,
            world.capacity == old(world).capacity,
            world.running == old(world).running,
        decreases world.capacity - world.collectibles.len(),
    {
        let p = random_position(world.max_x, world.max_y);
        world.collectibles.push(Collectible { active: true, pos: p });
    }
    let ghost golds2 = world.collectibles@;
    proof {
        assert forall|j: int| 0 <= j < golds2.len() implies in_bounds(
            (#[trigger] golds2[j]).pos,
            world.max_x,
            world.max_y,
        ) by {
            if j < golds1.len() {
                assert(golds2[j] == golds1[j]);
                assert(golds1[j].pos == golds0[j].pos);
                assert(in_bounds(old(world).collectibles@[j].pos, old(world).max_x, old(world).max_y));
                assert(golds0[j] == old(world).collectibles@[j]);
            } else {
                assert((world.collectibles@[j]).active && in_bounds(
                    world.collectibles@[j].pos,
                    world.max_x,
                    world.max_y,
                ));
            }
        }
    }

    // Collectible respawn: every inactive slot gets a fresh random cell.
    let mut r: usize = 0;
    while r < world.collectibles.len()
        invariant
            r <= golds2.len(),
            world.collectibles@.len() == golds2.len(),
            forall|j: int|
                0 <= j < golds2.len() ==> in_bounds(
                    (#[trigger] golds2[j]).pos,
                    world.max_x,
                    world.max_y,
                ),
            forall|j: int|
                0 <= j < r ==> (#[trigger] world.collectibles@[j]).active && in_bounds(
                    world.collectibles@[j].pos,
                    world.max_x,
                    world.max_y,
                ),
            forall|j: int|
                0 <= j < r && golds2[j].active ==> world.collectibles@[j] == golds2[j],
            forall|j: int| r <= j < golds2.len() ==> world.collectibles@[j] == golds2[j],
            world.snake == snake_done,
            world.max_x == old(world).max_x,
            world.max_y == old(world).max_y,
            world.capacity == old(world).capacity,
            world.running == old(world).running,
        decreases golds2.len() - r,
    {
        let g = world.collectibles[r];
        if !g.active {
            let p = random_position(world.max_x, world.max_y);
            world.collectibles.set(r, Collectible { active: true, pos: p });
            proof {
                assert(world.collectibles@[r as int] == Collectible { active: true, pos: p });
            }
        } else {
            proof {
                assert(g == golds2[r as int]);
                assert(in_bounds(golds2[r as int].pos, world.max_x, world.max_y));
                assert(world.collectibles@[r as int].active);
            }
        }
        r += 1;
    }
}

} // verus!
