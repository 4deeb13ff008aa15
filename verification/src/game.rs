//! The game: a grid, a snake and a piece of food, and the tick that advances
//! them.

use crate::chance::draw_below;
use crate::geo::{lemma_drawn_point_in_bounds, Grid, Point};
use crate::snake::{
    lemma_bite_stops, lemma_grown_shape, lemma_step_shape, lemma_step_stays_on_grid,
    lemma_wall_stops, move_snake, Movement, Snake, SnakeView,
};
use vstd::prelude::*;

verus! {

/// The cell on which the food lies.
#[derive(Copy, Clone, Eq, PartialEq, Debug)]
pub struct Food(pub Point);

/// What a running game holds.
#[derive(Eq, PartialEq, Debug)]
pub struct GameData {
    pub grid: Grid,
    pub snake: Snake,
    pub food: Food,
}

/// A game: running, or over for good.
#[derive(Eq, PartialEq, Debug)]
pub enum Game {
    Live(GameData),
    Ended,
}

/// What a game is: the mathematical counterpart of [`Game`].
pub enum GameView {
    Live { grid: Grid, snake: SnakeView, food: Point },
    Ended,
}

impl View for Game {
    type V = GameView;

    open spec fn view(&self) -> GameView {
        match *self {
            Game::Live(data) => GameView::Live {
                grid: data.grid,
                snake: data.snake@,
                food: data.food.0,
            },
            Game::Ended => GameView::Ended,
        }
    }
}

impl GameView {
    /// A fresh game on `grid`: a snake of one cell at `start`, standing
    /// still, and the food at `food`.
    pub open spec fn opening(grid: Grid, start: Point, food: Point) -> GameView {
        GameView::Live {
            grid,
            snake: SnakeView { body: seq![start], heading: Movement::Still },
            food,
        }
    }

    /// The game is a fresh game on `grid` whose snake and food lie on cells
    /// that a random draw on `grid` may yield.
    pub open spec fn opens(self, grid: Grid) -> bool {
        exists|start: Point, food: Point|
            grid.may_draw(start) && grid.may_draw(food) && self == #[trigger] GameView::opening(
                grid,
                start,
                food,
            )
    }

    /// The snake of a running game has a head. A game that is over is valid.
    pub open spec fn wf(self) -> bool {
        self matches GameView::Live { snake, .. } ==> snake.wf()
    }

    /// The next tick takes the head of the snake onto the food.
    pub open spec fn feeds(self) -> bool {
        self matches GameView::Live { grid, snake, food } && snake.step(grid) matches Some(moved)
            && moved.head() == food
    }

    /// The game one tick later, where `redraw` is the cell on which new food
    /// is laid if the snake eats the present one.
    ///
    /// A game that is over stays over. A running game is over as soon as its
    /// snake cannot make its step. Otherwise the snake moves; if its head is
    /// then on the food, the snake grows by one cell and the food moves to
    /// `redraw`.
    pub open spec fn advanced(self, redraw: Point) -> GameView {
        match self {
            GameView::Ended => GameView::Ended,
            GameView::Live { grid, snake, food } => match snake.step(grid) {
                None => GameView::Ended,
                Some(moved) => if moved.head() == food {
                    GameView::Live { grid, snake: moved.grown(), food: redraw }
                } else {
                    GameView::Live { grid, snake: moved, food }
                },
            },
        }
    }

    /// `next` is the game one tick later for some cell that a random draw
    /// on the grid may yield.
    pub open spec fn advances_to(self, next: GameView) -> bool {
        exists|redraw: Point|
            (self matches GameView::Live { grid, .. } ==> grid.may_draw(redraw)) && next
                == #[trigger] self.advanced(redraw)
    }

    /// The game after a request to turn the snake to `requested`. A game
    /// that is over takes no request.
    pub open spec fn steered(self, requested: Movement) -> GameView {
        match self {
            GameView::Ended => GameView::Ended,
            GameView::Live { grid, snake, food } => GameView::Live {
                grid,
                snake: snake.turned(requested),
                food,
            },
        }
    }
}

/// What one tick takes from outside: the heading that the player asks for,
/// if any, and the cell on which new food is laid if the snake eats.
pub struct Turn {
    pub request: Option<Movement>,
    pub redraw: Point,
}

impl GameView {
    /// Every cell of the snake of a running game lies on its grid.
    pub open spec fn snake_on_grid(self) -> bool {
        self matches GameView::Live { grid, snake, .. } ==> grid.holds_all(snake.body)
    }

    /// The food of a running game lies on its grid.
    pub open spec fn food_on_grid(self) -> bool {
        self matches GameView::Live { grid, food, .. } ==> grid.spec_in_bounds(food)
    }

    /// The game after one turn: the request, if there is one, is applied to
    /// the snake first, then the game advances by one tick.
    pub open spec fn after(self, turn: Turn) -> GameView {
        let steered = match turn.request {
            Some(requested) => self.steered(requested),
            None => self,
        };
        steered.advanced(turn.redraw)
    }

    /// The game after the turns of `turns`, in order.
    pub open spec fn played(self, turns: Seq<Turn>) -> GameView
        decreases turns.len(),
    {
        if turns.len() == 0 {
            self
        } else {
            self.played(turns.drop_last()).after(turns.last())
        }
    }
}

/// A fresh game whose snake starts on a cell that a random draw may yield
/// has its snake on the grid, and its food too if that was drawn likewise.
pub proof fn lemma_opening_on_grid(grid: Grid, start: Point, food: Point)
    requires
        grid.may_draw(start),
    ensures
        GameView::opening(grid, start, food).wf(),
        GameView::opening(grid, start, food).snake_on_grid(),
        grid.may_draw(food) ==> GameView::opening(grid, start, food).food_on_grid(),
{
    lemma_drawn_point_in_bounds(grid, start);
    if grid.may_draw(food) {
        lemma_drawn_point_in_bounds(grid, food);
    }
}

/// A request to turn changes neither the grid, the body of the snake nor
/// the food, and a game that is over takes no request.
pub proof fn lemma_steered_keeps_cells(game: GameView, requested: Movement)
    ensures
        game is Ended ==> game.steered(requested) is Ended,
        game matches GameView::Live { grid, snake, food } ==> game.steered(requested)
            == (GameView::Live { grid, snake: snake.turned(requested), food }),
        game.wf() ==> game.steered(requested).wf(),
        game.snake_on_grid() ==> game.steered(requested).snake_on_grid(),
        game.food_on_grid() ==> game.steered(requested).food_on_grid(),
{
}

/// A tick never takes the snake off the grid: if every cell of the snake
/// lies on the grid before the tick and the game is still running after
/// it, every cell of the snake lies on the grid then. The grid itself never
/// changes.
pub proof fn lemma_tick_keeps_snake_on_grid(game: GameView, redraw: Point)
    requires
        game.wf(),
        game.snake_on_grid(),
    ensures
        game.advanced(redraw).wf(),
        game.advanced(redraw).snake_on_grid(),
        game.advanced(redraw) matches GameView::Live { grid, .. } ==> game is Live && grid
            == game->grid,
{
    if let GameView::Live { grid, snake, food } = game {
        if let Some(moved) = snake.step(grid) {
            lemma_step_shape(snake, grid);
            lemma_step_stays_on_grid(snake, grid);
            lemma_grown_shape(moved, grid);
        }
    }
}

/// The food stays on the grid as long as new food is laid on cells that a
/// random draw on the grid may yield.
pub proof fn lemma_tick_keeps_food_on_grid(game: GameView, redraw: Point)
    requires
        game.food_on_grid(),
        game matches GameView::Live { grid, .. } ==> grid.may_draw(redraw),
    ensures
        game.advanced(redraw).food_on_grid(),
{
    if let GameView::Live { grid, .. } = game {
        lemma_drawn_point_in_bounds(grid, redraw);
    }
}

/// Turns of play never take the snake off the grid: if every cell of the
/// snake lies on the grid at the start, every cell does after any number of
/// turns.
pub proof fn lemma_play_keeps_snake_on_grid(start: GameView, turns: Seq<Turn>)
    requires
        start.wf(),
        start.snake_on_grid(),
    ensures
        start.played(turns).wf(),
        start.played(turns).snake_on_grid(),
    decreases turns.len(),
{
    if turns.len() > 0 {
        let before = start.played(turns.drop_last());
        lemma_play_keeps_snake_on_grid(start, turns.drop_last());
        let turn = turns.last();
        let steered = match turn.request {
            Some(requested) => before.steered(requested),
            None => before,
        };
        if let Some(requested) = turn.request {
            lemma_steered_keeps_cells(before, requested);
        }
        lemma_tick_keeps_snake_on_grid(steered, turn.redraw);
    }
}

/// In every game that can be reached from a fresh game by turns of play,
/// every cell of the snake lies on the grid.
pub proof fn lemma_reachable_snake_on_grid(
    grid: Grid,
    start: Point,
    food: Point,
    turns: Seq<Turn>,
)
    requires
        grid.may_draw(start),
    ensures
        GameView::opening(grid, start, food).played(turns).snake_on_grid(),
{
    lemma_opening_on_grid(grid, start, food);
    lemma_play_keeps_snake_on_grid(GameView::opening(grid, start, food), turns);
}

/// A game that is over stays over: one tick leaves it over, whatever the
/// cell for new food, and so does any number of turns of play.
pub proof fn lemma_ended_is_absorbing(turns: Seq<Turn>, redraw: Point)
    ensures
        GameView::Ended.advanced(redraw) == GameView::Ended,
        GameView::Ended.played(turns) == GameView::Ended,
    decreases turns.len(),
{
    if turns.len() > 0 {
        lemma_ended_is_absorbing(turns.drop_last(), redraw);
    }
}

/// When a tick takes the head of the snake onto the food, the game goes on
/// with a snake that is one cell longer and with the food on the cell for
/// new food.
pub proof fn lemma_eating_grows(game: GameView, redraw: Point)
    requires
        game.wf(),
        game.feeds(),
    ensures
        game.advanced(redraw) is Live,
        game.advanced(redraw)->grid == game->grid,
        game.advanced(redraw)->snake.body.len() == game->snake.body.len() + 1,
        game.advanced(redraw)->snake.head() == game->food,
        game.advanced(redraw)->food == redraw,
{
    let snake = game->snake;
    let grid = game->grid;
    lemma_step_shape(snake, grid);
    lemma_grown_shape(snake.step(grid)->0, grid);
}

/// When a tick moves the snake without taking its head onto the food, the
/// snake keeps its length and the food stays where it is.
pub proof fn lemma_fasting_keeps_length(game: GameView, redraw: Point)
    requires
        game.wf(),
        game is Live,
        game->snake.can_step(game->grid),
        !game.feeds(),
    ensures
        game.advanced(redraw) is Live,
        game.advanced(redraw)->grid == game->grid,
        game.advanced(redraw)->snake.body.len() == game->snake.body.len(),
        game.advanced(redraw)->food == game->food,
{
    lemma_step_shape(game->snake, game->grid);
}

/// A running game ends with the tick in which its moving snake would step
/// onto a cell that its own body covers.
pub proof fn lemma_bite_ends_game(game: GameView, redraw: Point)
    requires
        game.wf(),
        game is Live,
        game->snake.heading != Movement::Still,
        game->snake.covers(game->snake.target().0, game->snake.target().1),
    ensures
        game.advanced(redraw) is Ended,
{
    lemma_bite_stops(game->snake, game->grid);
}

/// A running game ends with the tick in which its snake heads off the grid
/// from an edge: right from the last column, up from the last row, left
/// from column zero, or down from row zero.
pub proof fn lemma_wall_ends_game(game: GameView, redraw: Point)
    requires
        game.wf(),
        game is Live,
        ({
            let snake = game->snake;
            let grid = game->grid;
            ||| snake.heading == Movement::Right && snake.head().0 >= grid.width
            ||| snake.heading == Movement::Up && snake.head().1 >= grid.height
            ||| snake.heading == Movement::Left && snake.head().0 == 0
            ||| snake.heading == Movement::Down && snake.head().1 == 0
        }),
    ensures
        game.advanced(redraw) is Ended,
{
    lemma_wall_stops(game->snake, game->grid);
}

/// A game goes on after a tick exactly if it was running and its snake
/// could make its step.
pub proof fn lemma_goes_on_iff_snake_steps(game: GameView, redraw: Point)
    ensures
        game.advanced(redraw) is Live <==> game is Live && game->snake.can_step(game->grid),
{
}

impl Clone for GameData {
    fn clone(&self) -> (copy: Self)
        ensures
            copy.grid == self.grid,
            copy.snake@ == self.snake@,
            copy.food == self.food,
    {
        GameData { grid: self.grid, snake: self.snake.clone(), food: self.food }
    }
}

impl Clone for Game {
    fn clone(&self) -> (copy: Self)
        ensures
            copy@ == self@,
    {
        match self {
            Game::Live(data) => Game::Live(data.clone()),
            Game::Ended => Game::Ended,
        }
    }
}

impl Food {
    /// Lays food on a random cell of `grid`: a column below the width and a
    /// row below the height.
    pub fn new(grid: &Grid) -> (food: Food)
        requires
            grid.wf(),
        ensures
            grid.may_draw(food.0),
    {
        let mut rng = rand::thread_rng();

        let x = draw_below(&mut rng, grid.width);
        let y = draw_below(&mut rng, grid.height);

        Food((x, y))
    }
}

impl Game {
    /// A fresh game on a grid of the given size, with the snake and the food
    /// on random cells.
    pub fn new(width: u16, height: u16) -> (game: Game)
        requires
            width > 0,
            height > 0,
        ensures
            game@.opens(Grid { width, height }),
    {
        let mut rng = rand::thread_rng();

        let x = draw_below(&mut rng, width);
        let y = draw_below(&mut rng, height);
        let grid = Grid { width, height };
        let food = Food::new(&grid);

        Game::starting_at(grid, (x, y), food)
    }

    /// A fresh game on `grid`: a snake of one cell at `start`, standing
    /// still, and `food`.
    pub fn starting_at(grid: Grid, start: Point, food: Food) -> (game: Game)
        ensures
            game@ == GameView::opening(grid, start, food.0),
    {
        Game::Live(GameData { grid, snake: Snake::new(start), food })
    }

    /// Advances the game by one tick, laying new food on a random cell of
    /// the grid if the snake eats the present one.
    pub fn advance(&self) -> (next: Game)
        requires
            self matches Game::Live(data) ==> data.grid.wf(),
        ensures
            self@.advances_to(next@),
            self@.feeds() ==> (next matches Game::Live(data) && data.grid.may_draw(data.food.0)),
    {
        match self {
            Game::Ended => {
                assert(self@.advanced((0, 0)) == GameView::Ended);
                Game::Ended
            },
            Game::Live(data) => {
                if let Some(snake) = move_snake(&data.grid, &data.snake) {
                    let eats = Game::reaches(&snake, &data.food);
                    let food = if eats {
                        Food::new(&data.grid)
                    } else {
                        data.food
                    };
                    let next = Game::settle(data.grid, snake, eats, food);
                    assert(next@ == self@.advanced(if eats { food.0 } else { (0, 0) }));
                    next
                } else {
                    assert(self@.advanced((0, 0)) == GameView::Ended);
                    Game::Ended
                }
            },
        }
    }

    /// Advances the game by one tick, laying new food at `redraw` if the
    /// snake eats the present one.
    pub fn advance_with(&self, redraw: Food) -> (next: Game)
        ensures
            next@ == self@.advanced(redraw.0),
    {
        match self {
            Game::Ended => Game::Ended,
            Game::Live(data) => {
                if let Some(snake) = move_snake(&data.grid, &data.snake) {
                    let eats = Game::reaches(&snake, &data.food);
                    let food = if eats {
                        redraw
                    } else {
                        data.food
                    };
                    Game::settle(data.grid, snake, eats, food)
                } else {
                    Game::Ended
                }
            },
        }
    }

    /// The running game on `grid` after its snake has stepped to `moved`:
    /// the snake grows where it `eats`, and `food` is the food from now on.
    fn settle(grid: Grid, moved: Snake, eats: bool, food: Food) -> (next: Game)
        ensures
            next@ == (GameView::Live {
                grid,
                snake: if eats {
                    moved@.grown()
                } else {
                    moved@
                },
                food: food.0,
            }),
    {
        let snake = if eats {
            moved.increase_length()
        } else {
            moved
        };
        Game::Live(GameData { snake, food, grid })
    }

    /// Tells whether the head of `snake` is on `food`.
    fn reaches(snake: &Snake, food: &Food) -> (on_food: bool)
        ensures
            on_food == (snake@.head() == food.0),
    {
        let head = snake.head();
        head.0 == food.0.0 && head.1 == food.0.1
    }
}

} // verus!
