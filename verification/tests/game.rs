use snake_game::game::{Food, Game, GameData};
use snake_game::geo::{Grid, Point};
use snake_game::snake::{Movement, Snake};

fn live_game(width: u16, height: u16, snake: Snake, food: Point) -> Game {
    Game::Live(GameData {
        grid: Grid { width, height },
        snake,
        food: Food(food),
    })
}

fn data_of(game: &Game) -> &GameData {
    match game {
        Game::Live(data) => data,
        Game::Ended => panic!("the game is over"),
    }
}

fn body_of(game: &Game) -> Vec<Point> {
    let mut walk = data_of(game).snake.iter();
    let mut out = Vec::new();
    while let Some(cell) = walk.next() {
        out.push(*cell);
    }
    out
}

fn turn(game: &Game, heading: Movement) -> Game {
    let data = data_of(game);
    Game::Live(GameData {
        grid: data.grid,
        snake: data.snake.movement(heading),
        food: data.food,
    })
}

#[test]
fn can_equal() {
    let example_game = live_game(100, 100, Snake::new((10, 10)), (15, 15));
    assert_eq!(Game::Ended, Game::Ended);
    assert_eq!(example_game, example_game);
    assert_ne!(example_game, Game::Ended);
}

#[test]
fn an_ended_game_stays_ended() {
    let mut game = Game::Ended;
    for _ in 0..5 {
        game = game.advance();
        assert_eq!(game, Game::Ended);
    }
    assert_eq!(Game::Ended.advance_with(Food((3, 3))), Game::Ended);
}

#[test]
fn a_still_snake_keeps_the_game_as_it_is() {
    let game = live_game(10, 10, Snake::new((5, 5)), (7, 7));
    let next = game.advance();
    assert_eq!(next, game);
    assert_eq!(body_of(&next), vec![(5, 5)]);
}

#[test]
fn a_walk_to_the_right_edge_and_beyond() {
    let game = live_game(10, 10, Snake::new((5, 5)), (7, 7));
    let mut game = game.advance();
    assert_eq!(body_of(&game), vec![(5, 5)]);

    game = turn(&game, Movement::Right);
    for _ in 0..4 {
        game = game.advance();
    }
    assert_eq!(data_of(&game).snake.head(), &(9, 5));

    game = turn(&game, Movement::Right).advance();
    assert_eq!(data_of(&game).snake.head(), &(10, 5));
    assert_eq!(data_of(&game).food, Food((7, 7)));
    assert_eq!(data_of(&game).grid, Grid { width: 10, height: 10 });

    game = game.advance();
    assert_eq!(game, Game::Ended);
}

#[test]
fn eating_grows_the_snake_and_moves_the_food() {
    let snake = Snake::new((4, 5)).movement(Movement::Right);
    let game = live_game(10, 10, snake, (5, 5));

    let fed = game.advance_with(Food((2, 8)));
    assert_eq!(body_of(&fed), vec![(5, 5), (5, 5)]);
    assert_eq!(data_of(&fed).snake.len(), 2);
    assert_eq!(data_of(&fed).food, Food((2, 8)));
    assert_eq!(data_of(&fed).snake.heading(), Movement::Right);

    let next = fed.advance_with(Food((0, 0)));
    assert_eq!(body_of(&next), vec![(6, 5), (5, 5)]);
    assert_eq!(data_of(&next).food, Food((2, 8)));
}

#[test]
fn eating_with_a_random_redraw_lays_the_food_on_the_grid() {
    for _ in 0..200 {
        let snake = Snake::new((4, 5)).movement(Movement::Right);
        let game = live_game(10, 10, snake, (5, 5));
        let fed = game.advance();
        assert_eq!(body_of(&fed), vec![(5, 5), (5, 5)]);
        let Food((x, y)) = data_of(&fed).food;
        assert!(x < 10 && y < 10);
    }
}

#[test]
fn the_redraw_is_ignored_while_the_snake_does_not_eat() {
    let snake = Snake::new((4, 5)).movement(Movement::Up);
    let game = live_game(10, 10, snake, (5, 5));
    let next = game.advance_with(Food((9, 9)));
    assert_eq!(body_of(&next), vec![(4, 6)]);
    assert_eq!(data_of(&next).food, Food((5, 5)));
    assert_eq!(next, game.advance());
}

#[test]
fn a_still_snake_on_the_food_eats_it() {
    let game = live_game(10, 10, Snake::new((3, 3)), (3, 3));
    let fed = game.advance_with(Food((1, 2)));
    assert_eq!(body_of(&fed), vec![(3, 3), (3, 3)]);
    assert_eq!(data_of(&fed).food, Food((1, 2)));
}

#[test]
fn new_food_may_fall_under_the_snake() {
    let snake = Snake::new((4, 5)).movement(Movement::Right);
    let game = live_game(10, 10, snake, (5, 5));
    let fed = game.advance_with(Food((5, 5)));
    assert_eq!(body_of(&fed), vec![(5, 5), (5, 5)]);
    assert_eq!(data_of(&fed).food, Food((5, 5)));
}

#[test]
fn running_into_a_wall_ends_the_game() {
    let cases = [
        ((10, 4), Movement::Right),
        ((4, 10), Movement::Up),
        ((0, 4), Movement::Left),
        ((4, 0), Movement::Down),
    ];
    for (start, heading) in cases {
        let game = live_game(10, 10, Snake::new(start).movement(heading), (7, 7));
        assert_eq!(game.advance(), Game::Ended);
        assert_eq!(game.advance_with(Food((1, 1))), Game::Ended);
    }
}

#[test]
fn running_into_itself_ends_the_game() {
    // Four cells eaten in a row, then a turn back into the body.
    let mut game = live_game(
        10,
        10,
        Snake::new((1, 1)).movement(Movement::Right),
        (2, 1),
    );
    game = game.advance_with(Food((3, 1)));
    game = game.advance_with(Food((4, 1)));
    game = game.advance_with(Food((5, 1)));
    game = game.advance_with(Food((9, 9)));
    assert_eq!(data_of(&game).snake.len(), 5);
    game = game.advance_with(Food((9, 9)));
    assert_eq!(
        body_of(&game),
        vec![(6, 1), (5, 1), (5, 1), (4, 1), (4, 1)]
    );
    game = turn(&game, Movement::Up).advance();
    game = turn(&game, Movement::Left).advance();
    assert_eq!(
        body_of(&game),
        vec![(5, 2), (6, 2), (6, 1), (5, 1), (5, 1)]
    );
    game = turn(&game, Movement::Down);
    assert_eq!(game.advance(), Game::Ended);
}

#[test]
fn a_request_to_reverse_does_not_save_the_snake() {
    let game = live_game(
        10,
        10,
        Snake::new((10, 4)).movement(Movement::Right),
        (7, 7),
    );
    let game = turn(&game, Movement::Left);
    assert_eq!(data_of(&game).snake.heading(), Movement::Right);
    assert_eq!(game.advance(), Game::Ended);
}

#[test]
fn a_new_game_starts_with_one_cell_on_the_grid() {
    for _ in 0..200 {
        let game = Game::new(7, 3);
        let data = data_of(&game);
        assert_eq!(data.grid, Grid { width: 7, height: 3 });
        assert_eq!(data.snake.len(), 1);
        assert_eq!(data.snake.heading(), Movement::Still);
        let (x, y) = *data.snake.head();
        assert!(x < 7 && y < 3);
        let Food((fx, fy)) = data.food;
        assert!(fx < 7 && fy < 3);
        assert!(data.grid.in_bounds((x, y)));
        assert!(data.grid.in_bounds((fx, fy)));
    }
}

#[test]
fn a_new_game_on_the_smallest_grid_is_fixed() {
    let game = Game::new(1, 1);
    assert_eq!(
        game,
        Game::starting_at(Grid { width: 1, height: 1 }, (0, 0), Food((0, 0)))
    );
}

#[test]
fn starting_at_places_the_snake_and_the_food() {
    let grid = Grid {
        width: 10,
        height: 10,
    };
    let game = Game::starting_at(grid, (5, 5), Food((7, 7)));
    assert_eq!(game, live_game(10, 10, Snake::new((5, 5)), (7, 7)));
}

#[test]
fn food_is_drawn_below_the_width_and_the_height() {
    let grid = Grid {
        width: 3,
        height: 2,
    };
    let mut seen = [[false; 2]; 3];
    for _ in 0..500 {
        let Food((x, y)) = Food::new(&grid);
        assert!(x < 3 && y < 2);
        seen[x as usize][y as usize] = true;
    }
    assert!(seen.iter().all(|column| column.iter().all(|cell| *cell)));
}

#[test]
fn food_on_a_grid_of_one_cell_is_at_the_origin() {
    let grid = Grid {
        width: 1,
        height: 1,
    };
    assert_eq!(Food::new(&grid), Food((0, 0)));
}

#[test]
fn the_snake_stays_on_the_grid_while_the_game_runs() {
    let headings = [
        Movement::Up,
        Movement::Right,
        Movement::Right,
        Movement::Down,
        Movement::Left,
        Movement::Up,
        Movement::Up,
        Movement::Right,
    ];
    let mut game = Game::starting_at(
        Grid {
            width: 4,
            height: 4,
        },
        (1, 1),
        Food((2, 2)),
    );
    let mut ticks = 0;
    for round in 0..40 {
        game = turn(&game, headings[round % headings.len()]).advance();
        if game == Game::Ended {
            break;
        }
        ticks += 1;
        let data = data_of(&game);
        for cell in body_of(&game) {
            assert!(data.grid.in_bounds(cell));
        }
        assert!(data.grid.in_bounds(data.food.0));
    }
    assert!(ticks > 0);
}

#[test]
fn a_clone_of_a_game_is_equal_to_it() {
    let game = live_game(
        10,
        10,
        Snake::new((4, 5)).movement(Movement::Right),
        (5, 5),
    );
    assert_eq!(game.clone(), game);
    assert_eq!(Game::Ended.clone(), Game::Ended);
    let data = data_of(&game).clone();
    assert_eq!(&data, data_of(&game));
}
