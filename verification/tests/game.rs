use game_snake::game::{handle_input, tick};
use game_snake::geometry::advance;
use game_snake::model::{grid_from_display, Collectible, Direction, Position, World};
use game_snake::render::{render, DrawOp, Tile};
use game_snake::update::update;

fn world_with_body(segments: &[(u16, u16)], direction: Direction) -> World {
    let mut body: Vec<Position> = Vec::new();
    for &(x, y) in segments {
        body.push(Position { x, y });
    }
    World::new(9, 9, body, direction, 4)
}

fn active_count(w: &World) -> usize {
    let mut n: usize = 0;
    for c in &w.collectibles {
        if c.active {
            n += 1;
        }
    }
    n
}

#[test]
fn advance_moves_and_wraps() {
    assert_eq!(advance(5, 9, 1), 6);
    assert_eq!(advance(5, 9, -1), 4);
    assert_eq!(advance(9, 9, 1), 0);
    assert_eq!(advance(0, 9, -1), 9);
    assert_eq!(advance(3, 9, 13), 6);
    assert_eq!(advance(3, 9, -13), 0);
    assert_eq!(advance(0, 0, 1), 0);
}

#[test]
fn head_moves_one_cell_each_direction() {
    for (dir, expected) in [
        (Direction::Left, (4u16, 5u16)),
        (Direction::Right, (6, 5)),
        (Direction::Up, (5, 4)),
        (Direction::Down, (5, 6)),
    ] {
        let mut w = world_with_body(&[(5, 5), (6, 5), (7, 5)], dir);
        update(&mut w);
        assert_eq!((w.snake.body[0].x, w.snake.body[0].y), expected);
    }
}

#[test]
fn head_wraps_at_zero_and_at_bound() {
    let mut w = world_with_body(&[(0, 5), (1, 5)], Direction::Left);
    update(&mut w);
    assert_eq!((w.snake.body[0].x, w.snake.body[0].y), (9, 5));

    let mut w = world_with_body(&[(5, 0), (5, 1)], Direction::Up);
    update(&mut w);
    assert_eq!((w.snake.body[0].x, w.snake.body[0].y), (5, 9));

    let mut w = world_with_body(&[(5, 9), (5, 8)], Direction::Down);
    update(&mut w);
    assert_eq!((w.snake.body[0].x, w.snake.body[0].y), (5, 0));
}

#[test]
fn wraparound_scenario_right_edge() {
    let mut w = world_with_body(&[(9, 3), (8, 3)], Direction::Right);
    update(&mut w);
    assert_eq!((w.snake.body[0].x, w.snake.body[0].y), (0, 3));
}

#[test]
fn reverse_input_is_ignored() {
    for (dir, reverse_key) in [
        (Direction::Right, 'a'),
        (Direction::Left, 'd'),
        (Direction::Up, 's'),
        (Direction::Down, 'w'),
    ] {
        let mut w = world_with_body(&[(5, 5), (6, 5)], dir);
        handle_input(&mut w, Some(reverse_key));
        assert_eq!(w.snake.direction, dir);
    }
}

#[test]
fn non_reverse_input_turns_the_snake() {
    let mut w = world_with_body(&[(5, 5), (6, 5)], Direction::Right);
    handle_input(&mut w, Some('w'));
    assert_eq!(w.snake.direction, Direction::Up);
    handle_input(&mut w, Some('a'));
    assert_eq!(w.snake.direction, Direction::Left);
    handle_input(&mut w, Some('x'));
    assert_eq!(w.snake.direction, Direction::Left);
    handle_input(&mut w, None);
    assert_eq!(w.snake.direction, Direction::Left);
}

#[test]
fn body_follows_its_predecessors() {
    let mut w = world_with_body(&[(5, 5), (6, 5), (6, 6)], Direction::Left);
    let before: Vec<Position> = w.snake.body.clone();
    update(&mut w);
    assert_eq!(w.snake.body.len(), before.len());
    for i in 1..w.snake.body.len() {
        assert_eq!(w.snake.body[i], before[i - 1]);
    }
}

#[test]
fn end_to_end_one_tick_left() {
    let mut w = world_with_body(&[(5, 4), (5, 5), (6, 5)], Direction::Left);
    update(&mut w);
    assert_eq!(w.snake.body.len(), 3);
    assert_eq!(w.snake.body[0], Position { x: 4, y: 4 });
    assert_eq!(w.snake.body[1], Position { x: 5, y: 4 });
    assert_eq!(w.snake.body[2], Position { x: 5, y: 5 });
}

#[test]
fn growth_is_delayed_by_one_tick() {
    let mut w = world_with_body(&[(5, 5), (6, 5), (7, 5)], Direction::Left);
    w.add_collectible(Position { x: 4, y: 5 });
    update(&mut w);
    assert_eq!(w.snake.body.len(), 3);
    assert_eq!(w.snake.body[0], Position { x: 4, y: 5 });
    update(&mut w);
    assert_eq!(w.snake.body.len(), 4);
}

#[test]
fn active_collectibles_stay_at_capacity() {
    let mut w = world_with_body(&[(5, 5), (6, 5)], Direction::Left);
    assert_eq!(active_count(&w), 0);
    update(&mut w);
    assert_eq!(active_count(&w), 4);
    assert_eq!(w.collectibles.len(), 4);
    for _ in 0..5 {
        update(&mut w);
        assert!(active_count(&w) <= 4);
        assert_eq!(active_count(&w), 4);
    }
}

#[test]
fn spawned_collectibles_lie_on_the_grid() {
    let mut body: Vec<Position> = Vec::new();
    body.push(Position { x: 0, y: 0 });
    let mut w = World::new(2, 2, body, Direction::Right, 4);
    for _ in 0..10 {
        update(&mut w);
        for c in &w.collectibles {
            assert!(c.pos.x <= 2 && c.pos.y <= 2);
        }
    }
}

#[test]
fn render_is_idempotent() {
    let mut w = world_with_body(&[(5, 5), (6, 5), (7, 5)], Direction::Left);
    w.add_collectible(Position { x: 1, y: 2 });
    let f1 = render(&w);
    let f2 = render(&w);
    assert_eq!(f1, f2);
}

#[test]
fn render_draws_collectibles_body_then_head() {
    let mut w = world_with_body(&[(2, 2), (3, 2), (4, 2)], Direction::Left);
    w.add_collectible(Position { x: 7, y: 8 });
    let frame = render(&w);
    assert_eq!(
        frame,
        vec![
            DrawOp { x: 7, y: 8, tile: Tile::Collectible },
            DrawOp { x: 3, y: 2, tile: Tile::BodyOdd },
            DrawOp { x: 4, y: 2, tile: Tile::BodyEven },
            DrawOp { x: 2, y: 2, tile: Tile::Head },
        ]
    );
}

#[test]
fn inactive_collectibles_are_not_drawn() {
    let mut w = world_with_body(&[(5, 5), (6, 5)], Direction::Left);
    w.add_collectible(Position { x: 1, y: 1 });
    w.collectibles.push(Collectible { active: false, pos: Position { x: 2, y: 2 } });
    let frame = render(&w);
    assert_eq!(frame.len(), 3);
    assert_eq!(frame[0], DrawOp { x: 1, y: 1, tile: Tile::Collectible });
}

#[test]
fn quit_key_stops_the_loop_within_one_iteration() {
    let mut w = world_with_body(&[(5, 5), (6, 5)], Direction::Left);
    assert!(w.running);
    let _frame = tick(&mut w, Some('q'));
    assert!(!w.running);
}

#[test]
fn tick_renders_then_updates() {
    let mut w = world_with_body(&[(5, 5), (6, 5)], Direction::Left);
    let expected = render(&w);
    let frame = tick(&mut w, None);
    assert_eq!(frame, expected);
    assert_eq!(w.snake.body[0], Position { x: 4, y: 5 });
}

#[test]
fn initial_world_layout() {
    let w = World::initial(10, 10);
    let expected = [(5u16, 4u16), (5, 5), (6, 5), (7, 5), (8, 5), (8, 6)];
    assert_eq!(w.snake.body.len(), expected.len());
    for (i, &(x, y)) in expected.iter().enumerate() {
        assert_eq!(w.snake.body[i], Position { x, y });
    }
    assert_eq!(w.snake.direction, Direction::Left);
    assert!(!w.snake.grow);
    assert!(w.running);
    assert_eq!(w.capacity, 4);
    assert!(w.collectibles.is_empty());
}

#[test]
fn grid_from_display_sizes() {
    assert_eq!(grid_from_display(80, 24), Some((39, 22)));
    assert_eq!(grid_from_display(6, 4), Some((2, 2)));
    assert_eq!(grid_from_display(5, 24), None);
    assert_eq!(grid_from_display(80, 3), None);
    assert_eq!(grid_from_display(0, 0), None);
}
