use rand::rngs::StdRng;
use rand::SeedableRng;
use snake_game::config::{Config, ConfigError};
use snake_game::food::{Food, FoodPlacementExhausted};
use snake_game::game::{Core, Frame, Tick, FRAMES_PER_TICK};
use snake_game::grid::{Coords, Direction};
use snake_game::snake::{Cell, CellType, Snake};

fn game(size: usize, seed: u64) -> Core {
    match Core::new(&Config::new(size * 40, size * 40, 40, 40), StdRng::seed_from_u64(seed)) {
        Ok(core) => core,
        Err(e) => panic!("no game: {:?}", e),
    }
}

fn positions(core: &Core) -> Vec<(i32, i32)> {
    core.snake.cells.iter().map(|c| (c.coords.x, c.coords.y)).collect()
}

fn body(cells: &[(i32, i32, Direction)], heading: Direction) -> Snake {
    let last = cells.len() - 1;
    let cells = cells
        .iter()
        .enumerate()
        .map(|(i, &(x, y, d))| {
            let kind = if i == 0 {
                CellType::Head
            } else if i == last {
                CellType::Tail
            } else {
                CellType::Middle
            };
            Cell::new(kind, Coords::new(x, y), d)
        })
        .collect();
    Snake { cells, direction: heading, next_direction: heading }
}

#[test]
fn a_new_game_has_the_first_snake_and_food_off_it() {
    for seed in 0..200 {
        let core = game(10, seed);
        assert_eq!(core.size, 10);
        assert_eq!(core.score, 0);
        assert_eq!(positions(&core), vec![(0, 0), (-1, 0)]);
        assert_eq!(core.snake.direction, Direction::Right);
        assert_eq!(core.snake.next_direction, Direction::Right);
        let food = core.food.coords;
        assert!(0 <= food.x && food.x < 10 && 0 <= food.y && food.y < 10);
        assert_ne!(food, Coords::new(0, 0));
        assert_ne!(food, Coords::new(9, 0));
        assert!(!core.check_collision());
        assert!(!core.check_eating_condition());
    }
}

#[test]
fn the_smallest_game_puts_food_in_the_second_row() {
    for seed in 0..50 {
        let core = game(2, seed);
        assert_eq!(core.food.coords.y, 1);
        assert!(core.food.coords.x == 0 || core.food.coords.x == 1);
    }
}

#[test]
fn a_bad_configuration_starts_no_game() {
    let rng = || StdRng::seed_from_u64(0);
    assert_eq!(Core::new(&Config::new(400, 400, 0, 40), rng()).err(), Some(ConfigError::EmptyCell));
    assert_eq!(Core::new(&Config::new(400, 200, 40, 40), rng()).err(), Some(ConfigError::NotSquare));
    assert_eq!(Core::new(&Config::new(40, 40, 40, 40), rng()).err(), Some(ConfigError::TooSmall));
    assert_eq!(Core::new(&Config::new(0, 0, 40, 40), rng()).err(), Some(ConfigError::TooSmall));
    assert_eq!(Core::new(&Config::new(usize::MAX, usize::MAX, 1, 1), rng()).err(), Some(ConfigError::TooLarge));
}

#[test]
fn a_tick_without_food_ahead_only_moves() {
    let mut core = game(10, 1);
    core.food = Food { coords: Coords::new(5, 5) };
    assert_eq!(core.move_snake(), Tick::Moved);
    assert_eq!(positions(&core), vec![(1, 0), (0, 0)]);
    assert_eq!(core.score, 0);
    assert_eq!(core.food, Food { coords: Coords::new(5, 5) });
    core.snake.change_direction(Direction::Up);
    assert_eq!(core.move_snake(), Tick::Moved);
    assert_eq!(positions(&core), vec![(1, -1), (1, 0)]);
    assert_eq!(core.snake.get_head().coords.translate(core.size), Coords::new(1, 9));
}

#[test]
fn eating_grows_the_snake_counts_a_point_and_moves_the_food() {
    let mut core = game(10, 2);
    core.food = Food { coords: Coords::new(1, 0) };
    assert!(!core.check_eating_condition());
    assert_eq!(core.move_snake(), Tick::Ate);
    assert_eq!(positions(&core), vec![(1, 0), (0, 0), (-1, 0)]);
    assert_eq!(core.snake.cells[1].kind, CellType::Middle);
    assert_eq!(core.snake.cells[2].kind, CellType::Tail);
    assert_eq!(core.score, 1);
    assert!(!core.snake.occupied_cells(10).contains(&core.food.coords));
    assert!(0 <= core.food.coords.x && core.food.coords.x < 10);
    assert!(0 <= core.food.coords.y && core.food.coords.y < 10);
    assert!(!core.check_eating_condition());
}

#[test]
fn food_is_eaten_across_the_edge() {
    let mut core = game(10, 3);
    core.snake.change_direction(Direction::Up);
    core.food = Food { coords: Coords::new(0, 9) };
    assert_eq!(core.move_snake(), Tick::Ate);
    assert_eq!(positions(&core), vec![(0, -1), (0, 0), (0, 1)]);
    assert_eq!(core.score, 1);
}

#[test]
fn a_snake_that_fills_the_grid_leaves_no_cell_for_food() {
    let mut core = game(2, 4);
    core.snake = body(
        &[(0, 0, Direction::Up), (0, 1, Direction::Up), (1, 1, Direction::Left)],
        Direction::Up,
    );
    core.snake.next_direction = Direction::Right;
    core.food = Food { coords: Coords::new(1, 0) };
    core.score = 1;
    assert_eq!(core.move_snake(), Tick::BoardFull);
    assert_eq!(positions(&core), vec![(1, 0), (0, 0), (0, 1), (1, 1)]);
    assert_eq!(core.score, 2);
    assert_eq!(core.food, Food { coords: Coords::new(1, 0) });
    assert_eq!(core.generate_food(), Err(FoodPlacementExhausted));
    assert_eq!(core.food, Food { coords: Coords::new(1, 0) });
}

#[test]
fn a_snake_at_the_limit_of_its_coordinates_stays() {
    let mut core = game(10, 5);
    core.snake = body(&[(i32::MAX, 0, Direction::Right), (i32::MAX - 1, 0, Direction::Right)], Direction::Right);
    let food = core.food;
    assert_eq!(core.move_snake(), Tick::OutOfRange);
    assert_eq!(positions(&core), vec![(i32::MAX, 0), (i32::MAX - 1, 0)]);
    assert_eq!(core.food, food);
    assert_eq!(core.score, 0);
    core.snake = body(&[(5, 5, Direction::Right), (4, 5, Direction::Right), (4, i32::MIN, Direction::Right)], Direction::Right);
    assert_eq!(core.move_snake(), Tick::OutOfRange);
    assert_eq!(positions(&core), vec![(5, 5), (4, 5), (4, i32::MIN)]);
}

#[test]
fn generate_food_keeps_clear_of_the_snake() {
    let mut core = game(3, 6);
    core.snake = body(
        &[
            (0, 0, Direction::Left),
            (1, 0, Direction::Left),
            (2, 0, Direction::Up),
            (2, 1, Direction::Right),
            (1, 1, Direction::Right),
            (0, 1, Direction::Up),
            (0, 2, Direction::Left),
        ],
        Direction::Left,
    );
    for _ in 0..200 {
        assert_eq!(core.generate_food(), Ok(()));
        assert!(core.food.coords == Coords::new(1, 2) || core.food.coords == Coords::new(2, 2));
        assert_eq!(core.score, 0);
        assert_eq!(core.snake.cells.len(), 7);
    }
}

#[test]
fn the_score_counts_up_and_stops_at_the_top() {
    let mut core = game(10, 7);
    core.inc_score();
    core.inc_score();
    assert_eq!(core.score, 2);
    assert_eq!(positions(&core), vec![(0, 0), (-1, 0)]);
    core.score = usize::MAX - 1;
    core.inc_score();
    assert_eq!(core.score, usize::MAX);
    core.inc_score();
    assert_eq!(core.score, usize::MAX);
}

#[test]
fn collision_is_seen_on_the_grid_of_the_game() {
    let mut core = game(10, 8);
    core.snake = body(
        &[
            (10, 0, Direction::Right),
            (9, 0, Direction::Right),
            (8, 0, Direction::Right),
            (0, 0, Direction::Right),
        ],
        Direction::Right,
    );
    assert!(core.check_collision());
    core.size = 7;
    assert!(!core.check_collision());
}

#[test]
fn the_head_meets_the_food_on_wrapped_cells() {
    let mut core = game(10, 9);
    core.snake = body(&[(-1, 20, Direction::Left), (0, 20, Direction::Left)], Direction::Left);
    core.food = Food { coords: Coords::new(9, 0) };
    assert!(core.check_eating_condition());
    core.food = Food { coords: Coords::new(-1, 20) };
    assert!(!core.check_eating_condition());
}

#[test]
fn the_same_seed_plays_the_same_game() {
    let mut a = game(6, 99);
    let mut b = game(6, 99);
    let turns = [Direction::Down, Direction::Right, Direction::Up, Direction::Right, Direction::Down, Direction::Left];
    for round in 0..400 {
        a.snake.change_direction(turns[round % turns.len()]);
        b.snake.change_direction(turns[round % turns.len()]);
        assert_eq!(a.move_snake(), b.move_snake());
        assert_eq!(a.food, b.food);
        assert_eq!(a.score, b.score);
        assert_eq!(a.snake.cells, b.snake.cells);
    }
}

#[test]
fn a_long_game_keeps_its_shape() {
    let mut core = game(8, 11);
    let turns = [Direction::Down, Direction::Down, Direction::Right, Direction::Up, Direction::Right, Direction::Right, Direction::Down, Direction::Left];
    let mut eaten = 0;
    for round in 0..3000 {
        core.snake.change_direction(turns[(round / 3) % turns.len()]);
        let before = core.snake.get_cell_coords();
        let score = core.score;
        let food = core.food;
        let tick = core.move_snake();
        let after = core.snake.get_cell_coords();
        match tick {
            Tick::Moved => {
                assert_eq!(after.len(), before.len());
                assert_eq!(core.score, score);
                assert_eq!(core.food, food);
                assert_ne!(after[0].translate(8), food.coords);
            }
            Tick::Ate => {
                eaten += 1;
                assert_eq!(after.len(), before.len() + 1);
                assert_eq!(core.score, score + 1);
                assert_eq!(after[0].translate(8), food.coords);
                assert!(!core.snake.occupied_cells(8).contains(&core.food.coords));
            }
            Tick::BoardFull => {
                assert_eq!(after.len(), before.len() + 1);
                assert!(after.len() >= 64);
                break;
            }
            Tick::OutOfRange => panic!("out of range after {} ticks", round),
        }
        assert_eq!(core.score + 2, core.snake.cells.len());
        for i in 1..before.len() {
            assert_eq!(after[i], before[i - 1]);
        }
        for i in 0..after.len() - 1 {
            let (dx, dy) = (after[i].x - after[i + 1].x, after[i].y - after[i + 1].y);
            assert_eq!(dx.abs() + dy.abs(), 1);
        }
        assert_eq!(core.snake.cells[0].kind, CellType::Head);
        assert_eq!(core.snake.cells[after.len() - 1].kind, CellType::Tail);
        assert!(core.snake.cells[1..after.len() - 1].iter().all(|c| c.kind == CellType::Middle));
        assert!(0 <= core.food.coords.x && core.food.coords.x < 8);
        assert!(0 <= core.food.coords.y && core.food.coords.y < 8);
    }
    assert!(eaten > 0);
}

#[test]
fn every_twentieth_frame_ticks() {
    assert_eq!(FRAMES_PER_TICK, 20);
    let mut core = game(10, 12);
    core.food = Food { coords: Coords::new(5, 5) };
    for frame in 0..61u64 {
        let before = positions(&core);
        let shown = core.on_frame(frame);
        assert_eq!(shown.step, frame % 20);
        assert!(!shown.lost);
        if frame % 20 == 0 {
            assert_eq!(shown.tick, Some(Tick::Moved));
            assert_eq!(positions(&core)[1], before[0]);
        } else {
            assert_eq!(shown.tick, None);
            assert_eq!(positions(&core), before);
        }
    }
    assert_eq!(positions(&core), vec![(4, 0), (3, 0)]);
    assert_eq!(core.on_frame(u64::MAX), Frame { tick: None, step: 15, lost: false });
}

#[test]
fn a_frame_says_when_the_game_is_lost() {
    let mut core = game(10, 13);
    core.snake = body(
        &[
            (0, 0, Direction::Up),
            (1, 0, Direction::Left),
            (1, 1, Direction::Up),
            (0, 1, Direction::Right),
            (0, 2, Direction::Up),
            (0, 3, Direction::Up),
        ],
        Direction::Up,
    );
    core.snake.next_direction = Direction::Down;
    core.food = Food { coords: Coords::new(7, 7) };
    assert_eq!(core.on_frame(19), Frame { tick: None, step: 19, lost: false });
    assert_eq!(core.on_frame(20), Frame { tick: Some(Tick::Moved), step: 0, lost: true });
    assert_eq!(core.on_frame(21), Frame { tick: None, step: 1, lost: true });
}
