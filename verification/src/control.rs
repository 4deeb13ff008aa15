//! What a key press does to a game.

use crate::game::{Game, GameData, GameView};
use crate::snake::{lemma_can_move_from_symmetric, Movement, Snake, SnakeView};
use vstd::prelude::*;

verus! {

/// A key press, as far as the game tells keys apart.
#[derive(Copy, Clone, Eq, PartialEq, Debug, Structural)]
pub enum Key {
    Left,
    Right,
    Up,
    Down,
    /// A key that stands for a character.
    Char(char),
    /// Any other key.
    Other,
}

impl Key {
    /// The key that ends the program: `q`.
    pub open spec fn quits(self) -> bool {
        self == Key::Char('q')
    }

    /// The heading that an arrow key asks for; no other key asks for one.
    pub open spec fn heading(self) -> Option<Movement> {
        match self {
            Key::Left => Some(Movement::Left),
            Key::Up => Some(Movement::Up),
            Key::Right => Some(Movement::Right),
            Key::Down => Some(Movement::Down),
            _ => None,
        }
    }

    /// Tells whether this is the key that ends the program.
    pub fn is_quit(&self) -> (quit: bool)
        ensures
            quit == self.quits(),
    {
        match self {
            Key::Char(c) => *c == 'q',
            _ => false,
        }
    }
}

/// The snake after the key press `key`: what `turned` gives for the heading
/// that the key asks for, and the snake as it is for a key that asks for
/// none.
pub open spec fn snake_after(key: Key, snake: SnakeView) -> SnakeView {
    match key.heading() {
        Some(requested) => snake.turned(requested),
        None => snake,
    }
}

/// The game after the key press `key`, which is not the key that quits: an
/// arrow key is a request to turn the snake, any other key changes nothing.
pub open spec fn game_after(key: Key, game: GameView) -> GameView {
    match key.heading() {
        Some(requested) => game.steered(requested),
        None => game,
    }
}

/// What one poll of the keyboard makes of `game`: `None` where the key that
/// quits was pressed, else the game to advance next.
pub open spec fn handled(game: GameView, next_event: Option<Key>) -> Option<GameView> {
    match next_event {
        Some(key) => if key.quits() {
            None
        } else {
            Some(game_after(key, game))
        },
        None => Some(game),
    }
}

/// The heading that `key` asks for, if it is an arrow key.
pub fn to_movement(key: Key) -> (requested: Option<Movement>)
    ensures
        requested == key.heading(),
{
    match key {
        Key::Left => Some(Movement::Left),
        Key::Up => Some(Movement::Up),
        Key::Right => Some(Movement::Right),
        Key::Down => Some(Movement::Down),
        _ => None,
    }
}

/// Turns `snake` as `key` asks, unless that would reverse it on the spot.
pub fn update_snake(key: Key, snake: &Snake) -> (updated: Snake)
    ensures
        updated@ == snake_after(key, snake@),
{
    match to_movement(key) {
        Some(mvmnt) => {
            proof {
                lemma_can_move_from_symmetric(snake@.heading, mvmnt);
            }
            if snake.heading().can_move_from(&mvmnt) {
                snake.movement(mvmnt)
            } else {
                snake.clone()
            }
        },
        None => snake.clone(),
    }
}

/// Applies one poll of the keyboard to `game`, where `next_event` is the key
/// that was pressed, if any.
///
/// The key `q` gives `None`: the program is to stop. Any other key gives the
/// game with its snake turned as the key asks; a game that is over stays
/// over. Without a key the game comes back as it is.
pub fn handle_user_input(game: &Game, next_event: Option<Key>) -> (result: Option<Game>)
    ensures
        result is Some <==> handled(game@, next_event) is Some,
        result matches Some(next) ==> Some(next@) == handled(game@, next_event),
{
    if let Some(key) = next_event {
        if key.is_quit() {
            None
        } else {
            Some(
                match game {
                    Game::Live(data) => {
                        let snake = update_snake(key, &data.snake);
                        Game::Live(GameData { snake, grid: data.grid, food: data.food })
                    },
                    Game::Ended => Game::Ended,
                },
            )
        }
    } else {
        Some(game.clone())
    }
}

} // verus!
