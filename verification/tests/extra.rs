use snake_engine::engine::{GameStatus, SnakeEngine};
use snake_engine::geometry::{Direction, Point};
use snake_engine::pit::SnakePit;
use snake_engine::snake::Snake;

fn manhattan(a: &Point, b: &Point) -> u32 {
    let dx = if a.x > b.x { a.x - b.x } else { b.x - a.x };
    let dy = if a.y > b.y { a.y - b.y } else { b.y - a.y };
    dx + dy
}

#[test]
fn growth_applies_once() {
    let mut snake = Snake::new(3, Point { x: 0, y: 0 });
    snake.make_longer();
    snake.move_to_next_position();
    assert_eq!(snake.get_body().len(), 4);
    snake.move_to_next_position();
    assert_eq!(snake.get_body().len(), 4);
    snake.move_to_next_position();
    assert_eq!(snake.get_body().len(), 4);
}

#[test]
fn body_stays_adjacent() {
    let mut snake = Snake::new(5, Point { x: 10, y: 10 });
    let turns = [
        Direction::Down,
        Direction::Down,
        Direction::Left,
        Direction::Down,
        Direction::Right,
        Direction::Right,
        Direction::Up,
    ];
    for d in turns {
        snake.change_direction(d);
        snake.move_to_next_position();
        let body = snake.get_body();
        let mut i: usize = 0;
        while i + 1 < body.len() {
            assert_eq!(manhattan(&body[i], &body[i + 1]), 1);
            i += 1;
        }
    }
}

#[test]
fn bounds_checked_exactly() {
    let pit = SnakePit {
        width: 5,
        height: 10,
    };
    // Interior cells, including the far edge minus one, are in bounds.
    assert_eq!(Snake::new(1, Point { x: 1, y: 1 }).collides_with_bounds(&pit), false);
    assert_eq!(Snake::new(1, Point { x: 4, y: 9 }).collides_with_bounds(&pit), false);
    // Column 0 and row 0 already count as wall.
    assert_eq!(Snake::new(1, Point { x: 0, y: 5 }).collides_with_bounds(&pit), true);
    assert_eq!(Snake::new(1, Point { x: 3, y: 0 }).collides_with_bounds(&pit), true);
    // The far edge and beyond count as wall.
    assert_eq!(Snake::new(1, Point { x: 5, y: 5 }).collides_with_bounds(&pit), true);
    assert_eq!(Snake::new(1, Point { x: 7, y: 5 }).collides_with_bounds(&pit), true);
    assert_eq!(Snake::new(1, Point { x: 3, y: 10 }).collides_with_bounds(&pit), true);
    assert_eq!(Snake::new(1, Point { x: 3, y: 12 }).collides_with_bounds(&pit), true);
}

#[test]
fn change_direction_twice_same() {
    let mut once = Snake::new(3, Point { x: 5, y: 5 });
    let mut twice = Snake::new(3, Point { x: 5, y: 5 });
    once.change_direction(Direction::Down);
    twice.change_direction(Direction::Down);
    twice.change_direction(Direction::Down);
    assert_eq!(once.direction, twice.direction);
    once.move_to_next_position();
    twice.move_to_next_position();
    assert_eq!(once.get_body(), twice.get_body());
}

#[test]
fn finished_is_terminal() {
    let mut engine = SnakeEngine::new(3, 5).unwrap();
    assert_eq!(engine.tick(), GameStatus::Finished);
    let body_after = engine.snake.body.clone();
    let snack_after = engine.snack_position;
    engine.change_snake_direction(Direction::Left);
    assert_eq!(engine.tick(), GameStatus::Finished);
    assert_eq!(engine.tick(), GameStatus::Finished);
    assert_eq!(engine.snake.body, body_after);
    assert_eq!(engine.snack_position, snack_after);
}

#[test]
fn snack_follows_the_draw() {
    // In a 4 x 4 pit the interior is the nine cells (1..4, 1..4); a one-cell
    // snake on (2, 2) leaves eight free cells, in x-major order. Each draw
    // must select exactly the draw-th of them; a draw past the end places
    // nothing.
    let pit = SnakePit {
        height: 4,
        width: 4,
    };
    let snake = Snake::new(1, Point { x: 2, y: 2 });
    let expected = [
        Point { x: 1, y: 1 },
        Point { x: 1, y: 2 },
        Point { x: 1, y: 3 },
        Point { x: 2, y: 1 },
        Point { x: 2, y: 3 },
        Point { x: 3, y: 1 },
        Point { x: 3, y: 2 },
        Point { x: 3, y: 3 },
    ];
    let mut draw: usize = 0;
    while draw < expected.len() {
        assert_eq!(
            SnakeEngine::generate_snack_with_draw(&pit, &snake, draw),
            Some(expected[draw])
        );
        draw += 1;
    }
    assert_eq!(
        SnakeEngine::generate_snack_with_draw(&pit, &snake, expected.len()),
        None
    );
}

#[test]
fn engine_without_free_cell_fails() {
    // A 1 x 1 pit has no interior cell at all, so no food can be placed.
    assert!(SnakeEngine::new(1, 1).is_none());
    // A 2 x 2 pit has exactly one interior cell, away from the snake.
    assert!(SnakeEngine::new(2, 2).is_some());
}

#[test]
fn snack_in_only_free_cell() {
    // The single interior cell of a 2 x 2 pit is (1, 1); the snake is far
    // away, so the food must land exactly there.
    let pit = SnakePit {
        height: 2,
        width: 2,
    };
    let snake = Snake::new(1, Point { x: 5, y: 5 });
    let snack = SnakeEngine::generate_snack(&pit, &snake);
    assert_eq!(snack, Some(Point { x: 1, y: 1 }));
}

#[test]
fn snack_always_interior() {
    let pit = SnakePit {
        height: 10,
        width: 10,
    };
    let snake = Snake::new(3, Point { x: 2, y: 2 });
    let mut round: u32 = 0;
    while round < 50 {
        let snack = SnakeEngine::generate_snack(&pit, &snake).unwrap();
        assert!(1 <= snack.x && snack.x < 10);
        assert!(1 <= snack.y && snack.y < 10);
        assert!(!snake.collides_with_point(&snack));
        round += 1;
    }
}

#[test]
fn snack_stays_off_body() {
    let mut engine = SnakeEngine::new(30, 30).unwrap();
    assert!(!engine.snake.collides_with_point(&engine.snack_position));
    let mut round: u32 = 0;
    while round < 40 {
        match engine.tick() {
            GameStatus::Finished => break,
            _ => {}
        }
        assert!(!engine.snake.collides_with_point(&engine.snack_position));
        round += 1;
    }
}

#[test]
fn perimeter_cells() {
    let pit = SnakePit {
        height: 4,
        width: 5,
    };
    assert_eq!(
        pit.get_perimeter(),
        vec![
            Point { x: 0, y: 0 },
            Point { x: 1, y: 0 },
            Point { x: 2, y: 0 },
            Point { x: 3, y: 0 },
            Point { x: 4, y: 0 },
            Point { x: 0, y: 1 },
            Point { x: 4, y: 1 },
            Point { x: 0, y: 2 },
            Point { x: 4, y: 2 },
            Point { x: 0, y: 3 },
            Point { x: 4, y: 3 },
        ]
    );
}

#[test]
fn perimeter_of_flat_pits() {
    // A single-row pit is all top row; an empty pit has no perimeter.
    let flat = SnakePit {
        height: 1,
        width: 3,
    };
    assert_eq!(
        flat.get_perimeter(),
        vec![
            Point { x: 0, y: 0 },
            Point { x: 1, y: 0 },
            Point { x: 2, y: 0 },
        ]
    );
    let empty = SnakePit {
        height: 0,
        width: 3,
    };
    assert_eq!(empty.get_perimeter(), vec![]);
}
