//! A pure renderer: the frame is a sequence of drawing instructions
//! computed from the world alone. Putting the instructions on a terminal
//! (and the two-columns-per-cell aspect correction) is left to the caller.

use vstd::prelude::*;
use crate::model::{Collectible, Position, World};

verus! {

/// What to show in one grid cell.
#[derive(Clone, Copy, PartialEq, Eq, Structural, Debug)]
pub enum Tile {
    /// An active collectible.
    Collectible,
    /// A body segment with an even index.
    BodyEven,
    /// A body segment with an odd index.
    BodyOdd,
    /// The snake's head.
    Head,
}

/// One drawing instruction of a frame: a grid cell and the tile to show
/// there. Later instructions overdraw earlier ones.
#[derive(Clone, Copy, PartialEq, Eq, Structural, Debug)]
pub struct DrawOp {
    pub x: u16,
    pub y: u16,
    pub tile: Tile,
}

/// The instructions for the active collectibles from index `i` on, in
/// order; inactive ones are not drawn.
pub open spec fn collectible_ops(golds: Seq<Collectible>, i: int) -> Seq<DrawOp>
    decreases golds.len() - i,
{
    if i < 0 || i >= golds.len() {
        Seq::empty()
    } else {
        let rest = collectible_ops(golds, i + 1);
        if golds[i].active {
            seq![DrawOp { x: golds[i].pos.x, y: golds[i].pos.y, tile: Tile::Collectible }] + rest
        } else {
            rest
        }
    }
}

/// The instruction for the body segment at index `i`, with the alternating
/// style chosen by the segment's parity.
pub open spec fn body_op(p: Position, i: int) -> DrawOp {
    DrawOp {
        x: p.x,
        y: p.y,
        tile: if i % 2 != 0 {
            Tile::BodyOdd
        } else {
            Tile::BodyEven
        },
    }
}

/// The instructions for the body segments from index `i` on (the head at
/// index 0 is drawn separately, last).
pub open spec fn body_ops(body: Seq<Position>, i: int) -> Seq<DrawOp>
    decreases body.len() - i,
{
    if i < 1 || i >= body.len() {
        Seq::empty()
    } else {
        seq![body_op(body[i], i)] + body_ops(body, i + 1)
    }
}

/// The full frame: first every active collectible, then every non-head
/// body segment with its parity style, then the head with its own style.
pub open spec fn frame_spec(golds: Seq<Collectible>, body: Seq<Position>) -> Seq<DrawOp> {
    collectible_ops(golds, 0) + body_ops(body, 1) + seq![
        DrawOp { x: body[0].x, y: body[0].y, tile: Tile::Head },
    ]
}

/// Render one full frame from the world. A pure projection: the same world
/// always yields the same frame, and the world is left untouched.
#[verifier::loop_isolation(false)]
pub fn render(world: &World) -> (frame: Vec<DrawOp>)
    requires
        world.snake.body@.len() >= 1,
    ensures
        frame@ == frame_spec(world.collectibles@, world.snake.body@),
{
    let golds = &world.collectibles;
    let body = &world.snake.body;
    let mut frame: Vec<DrawOp> = Vec::new();

    let mut i: usize = 0;
    while i < golds.len()
        invariant
            i <= golds@.len(),
            frame@ + collectible_ops(golds@, i as int) == collectible_ops(golds@, 0),
        decreases golds@.len() - i,
    {
        let g = golds[i];
        if g.active {
            frame.push(DrawOp { x: g.pos.x, y: g.pos.y, tile: Tile::Collectible });
        }
        proof {
            assert(frame@ + collectible_ops(golds@, i + 1) =~= collectible_ops(golds@, 0));
        }
        i += 1;
    }
    proof {
        assert(frame@ =~= collectible_ops(golds@, 0));
    }

    let mut k: usize = 1;
    while k < body.len()
        invariant
            1 <= k <= body@.len(),
            frame@ + body_ops(body@, k as int) == collectible_ops(golds@, 0) + body_ops(
                body@,
                1,
            ),
        decreases body@.len() - k,
    {
        let p = body[k];
        frame.push(body_op_exec(p, k));
        proof {
            assert(frame@ + body_ops(body@, k + 1) =~= collectible_ops(golds@, 0) + body_ops(
                body@,
                1,
            ));
        }
        k += 1;
    }

    let head = body[0];
    frame.push(DrawOp { x: head.x, y: head.y, tile: Tile::Head });
    proof {
        assert(frame@ =~= frame_spec(world.collectibles@, world.snake.body@));
    }
    frame
}

/// The drawing instruction for one body segment.
fn body_op_exec(p: Position, i: usize) -> (op: DrawOp)
    ensures
        op == body_op(p, i as int),
{
    DrawOp {
        x: p.x,
        y: p.y,
        tile: if i % 2 != 0 {
            Tile::BodyOdd
        } else {
            Tile::BodyEven
        },
    }
}

/// Render idempotence: the frame is a function of the world alone, so two
/// renders of the same unmodified world are identical.
pub proof fn lemma_render_idempotent(
    f1: Seq<DrawOp>,
    f2: Seq<DrawOp>,
    golds: Seq<Collectible>,
    body: Seq<Position>,
)
    requires
        f1 == frame_spec(golds, body),
        f2 == frame_spec(golds, body),
    ensures
        f1 == f2,
{
}

} // verus!
