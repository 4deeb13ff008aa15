//! The snake: its body, its heading, and the step that moves it by one cell.

use crate::geo::{Grid, Point};
use std::collections::VecDeque;
use vstd::prelude::*;

verus! {

/// The direction in which a snake moves. `Up` raises `y`, `Right` raises `x`.
#[derive(Copy, Clone, Eq, PartialEq, Debug, Structural)]
pub enum Movement {
    Still,
    Up,
    Right,
    Down,
    Left,
}

impl Movement {
    /// `self` and `other` point in opposite directions.
    pub open spec fn reverses(self, other: Movement) -> bool {
        ||| self == Movement::Left && other == Movement::Right
        ||| self == Movement::Right && other == Movement::Left
        ||| self == Movement::Up && other == Movement::Down
        ||| self == Movement::Down && other == Movement::Up
    }

    /// A snake may turn between `self` and `movement` in a single tick:
    /// every turn is allowed except a reversal on the spot.
    pub open spec fn spec_can_move_from(self, movement: Movement) -> bool {
        !self.reverses(movement)
    }

    /// Tells whether a snake may turn between `self` and `movement` in a
    /// single tick.
    pub fn can_move_from(&self, movement: &Movement) -> (allowed: bool)
        ensures
            allowed == self.spec_can_move_from(*movement),
    {
        match self {
            Movement::Still => true,
            Movement::Left => !matches!(movement, Movement::Right),
            Movement::Up => !matches!(movement, Movement::Down),
            Movement::Right => !matches!(movement, Movement::Left),
            Movement::Down => !matches!(movement, Movement::Up),
        }
    }
}

/// `cell` is the cell `(x, y)`, given as mathematical integers.
pub open spec fn cell_is(cell: Point, x: int, y: int) -> bool {
    cell.0 == x && cell.1 == y
}

/// What a snake is: the cells of its body, head first, and its heading.
pub struct SnakeView {
    pub body: Seq<Point>,
    pub heading: Movement,
}

impl SnakeView {
    /// A snake has at least a head.
    pub open spec fn wf(self) -> bool {
        self.body.len() >= 1
    }

    /// The first cell of the body.
    pub open spec fn head(self) -> Point {
        self.body[0]
    }

    /// The same body under another heading.
    pub open spec fn headed(self, heading: Movement) -> SnakeView {
        SnakeView { body: self.body, heading }
    }

    /// The snake after a request to turn to `requested`: a reversal on the
    /// spot is ignored, any other request is followed.
    pub open spec fn turned(self, requested: Movement) -> SnakeView {
        if requested.spec_can_move_from(self.heading) {
            self.headed(requested)
        } else {
            self
        }
    }

    /// The snake with its head doubled: one cell longer, the same cells
    /// covered.
    pub open spec fn grown(self) -> SnakeView {
        SnakeView { body: seq![self.head()] + self.body, heading: self.heading }
    }

    /// The cell one step from the head along the heading, as mathematical
    /// integers: it may lie below zero.
    pub open spec fn target(self) -> (int, int) {
        let (x, y) = self.head();
        match self.heading {
            Movement::Still => (x as int, y as int),
            Movement::Up => (x as int, y + 1),
            Movement::Right => (x + 1, y as int),
            Movement::Down => (x as int, y - 1),
            Movement::Left => (x - 1, y as int),
        }
    }

    /// A step would take the snake off the grid. A moving snake needs room
    /// ahead of it on both axes: the cell diagonally beyond its head,
    /// `head + (1, 1)`, must lie on the grid, whatever the heading, and the
    /// cell it moves to must not lie below zero.
    pub open spec fn leaves(self, grid: Grid) -> bool {
        ||| !grid.holds(self.head().0 + 1, self.head().1 + 1)
        ||| self.target().0 < 0
        ||| self.target().1 < 0
    }

    /// The body lies on the cell `(x, y)`, given as mathematical integers.
    pub open spec fn covers(self, x: int, y: int) -> bool {
        exists|i: int| 0 <= i < self.body.len() && cell_is(#[trigger] self.body[i], x, y)
    }

    /// A step would take the head to a cell that the body covers now, the
    /// last cell included.
    pub open spec fn bites(self) -> bool {
        self.covers(self.target().0, self.target().1)
    }

    /// The snake can make its next step on `grid`. A snake that stands still
    /// always can.
    pub open spec fn can_step(self, grid: Grid) -> bool {
        self.heading == Movement::Still || (!self.leaves(grid) && !self.bites())
    }

    /// The body one step on: the target cell in front, the last cell gone.
    pub open spec fn shifted(self) -> SnakeView {
        SnakeView {
            body: seq![(self.target().0 as u16, self.target().1 as u16)] + self.body.drop_last(),
            heading: self.heading,
        }
    }

    /// The snake one tick later, or `None` where it cannot make the step.
    pub open spec fn step(self, grid: Grid) -> Option<SnakeView> {
        if self.heading == Movement::Still {
            Some(self)
        } else if self.leaves(grid) || self.bites() {
            None
        } else {
            Some(self.shifted())
        }
    }
}

/// A request to turn is followed unless it would reverse the snake on the
/// spot: then the snake stays exactly as it is. So a snake that heads right
/// keeps heading right when asked to head left, and turns when asked to head
/// up or down; likewise for the other three headings.
pub proof fn lemma_no_reversal(snake: SnakeView, requested: Movement)
    ensures
        requested.reverses(snake.heading) ==> snake.turned(requested) == snake,
        !requested.reverses(snake.heading) ==> snake.turned(requested).heading == requested,
        snake.turned(requested).body == snake.body,
        snake.heading == Movement::Right ==> {
            &&& snake.turned(Movement::Left).heading == Movement::Right
            &&& snake.turned(Movement::Up).heading == Movement::Up
            &&& snake.turned(Movement::Down).heading == Movement::Down
        },
        snake.heading == Movement::Still ==> snake.turned(requested).heading == requested,
{
}

/// Whether a turn is allowed does not depend on which of the two headings
/// is the present one. Standing still goes with every heading, and it is
/// the only heading that does: each of the four directions has its reverse.
pub proof fn lemma_can_move_from_symmetric(a: Movement, b: Movement)
    ensures
        a.spec_can_move_from(b) == b.spec_can_move_from(a),
        Movement::Still.spec_can_move_from(a),
        a.spec_can_move_from(a),
        a != Movement::Still ==> exists|c: Movement| !(#[trigger] c.spec_can_move_from(a)),
{
    match a {
        Movement::Still => {},
        Movement::Up => {
            assert(!Movement::Down.spec_can_move_from(a));
        },
        Movement::Right => {
            assert(!Movement::Left.spec_can_move_from(a));
        },
        Movement::Down => {
            assert(!Movement::Up.spec_can_move_from(a));
        },
        Movement::Left => {
            assert(!Movement::Right.spec_can_move_from(a));
        },
    }
}

/// A snake at an edge of the grid that heads off it cannot make its step:
/// heading right in the last column, up in the last row, left in column
/// zero, or down in row zero.
pub proof fn lemma_wall_stops(snake: SnakeView, grid: Grid)
    requires
        snake.wf(),
        ({
            ||| snake.heading == Movement::Right && snake.head().0 >= grid.width
            ||| snake.heading == Movement::Up && snake.head().1 >= grid.height
            ||| snake.heading == Movement::Left && snake.head().0 == 0
            ||| snake.heading == Movement::Down && snake.head().1 == 0
        }),
    ensures
        snake.leaves(grid),
        snake.step(grid) is None,
{
}

/// A moving snake whose next cell is one that its body covers cannot make
/// its step.
pub proof fn lemma_bite_stops(snake: SnakeView, grid: Grid)
    requires
        snake.wf(),
        snake.heading != Movement::Still,
        snake.covers(snake.target().0, snake.target().1),
    ensures
        snake.step(grid) is None,
{
}

/// A step keeps the length and the heading of a snake, and moves its head
/// to the target cell; the rest of the body follows, each cell taking the
/// place of the one before it.
pub proof fn lemma_step_shape(snake: SnakeView, grid: Grid)
    requires
        snake.wf(),
        snake.step(grid) is Some,
    ensures
        snake.step(grid)->0.wf(),
        snake.step(grid)->0.body.len() == snake.body.len(),
        snake.step(grid)->0.heading == snake.heading,
        snake.step(grid)->0.head().0 == snake.target().0,
        snake.step(grid)->0.head().1 == snake.target().1,
        snake.heading != Movement::Still ==> forall|i: int|
            1 <= i < snake.body.len() ==> snake.step(grid)->0.body[i] == snake.body[i - 1],
        snake.heading != Movement::Still ==> !snake.covers(
            snake.step(grid)->0.head().0 as int,
            snake.step(grid)->0.head().1 as int,
        ),
{
}

/// A step never takes a snake off the grid: if every cell of the body lies
/// on the grid before the step, every cell does after it.
pub proof fn lemma_step_stays_on_grid(snake: SnakeView, grid: Grid)
    requires
        snake.wf(),
        grid.holds_all(snake.body),
        snake.step(grid) is Some,
    ensures
        grid.holds_all(snake.step(grid)->0.body),
{
    let next = snake.step(grid)->0;
    if snake.heading != Movement::Still {
        assert forall|i: int| 0 <= i < next.body.len() implies grid.spec_in_bounds(
            #[trigger] next.body[i],
        ) by {
            if i > 0 {
                assert(next.body[i] == snake.body[i - 1]);
            }
        }
    }
}

/// Growing keeps a snake on the grid and makes it one cell longer.
pub proof fn lemma_grown_shape(snake: SnakeView, grid: Grid)
    requires
        snake.wf(),
    ensures
        snake.grown().wf(),
        snake.grown().body.len() == snake.body.len() + 1,
        snake.grown().head() == snake.head(),
        snake.grown().heading == snake.heading,
        grid.holds_all(snake.body) ==> grid.holds_all(snake.grown().body),
{
    let next = snake.grown();
    if grid.holds_all(snake.body) {
        assert forall|i: int| 0 <= i < next.body.len() implies grid.spec_in_bounds(
            #[trigger] next.body[i],
        ) by {
            if i > 0 {
                assert(next.body[i] == snake.body[i - 1]);
            } else {
                assert(next.body[0] == snake.body[0]);
            }
        }
    }
}

/// A snake on the playing field: a body of at least one cell, head first, and
/// its heading.
#[derive(Eq, PartialEq, Debug)]
pub struct Snake {
    points: VecDeque<Point>,
    movement: Movement,
}

impl View for Snake {
    type V = SnakeView;

    closed spec fn view(&self) -> SnakeView {
        SnakeView { body: self.points@, heading: self.movement }
    }
}

/// Copies the cells of `points`, in order, into a deque of its own.
fn copy_points(points: &VecDeque<Point>) -> (copy: VecDeque<Point>)
    ensures
        copy@ == points@,
{
    let mut copy: VecDeque<Point> = VecDeque::new();
    let mut i: usize = 0;
    while i < points.len()
        invariant
            i <= points@.len(),
            copy@ == points@.subrange(0, i as int),
        decreases points@.len() - i,
    {
        let cell: Point = points[i];
        copy.push_back(cell);
        i = i + 1;
        assert(copy@ =~= points@.subrange(0, i as int));
    }
    assert(points@.subrange(0, i as int) =~= points@);
    copy
}

impl Clone for Snake {
    fn clone(&self) -> (copy: Self)
        ensures
            copy@ == self@,
    {
        proof {
            use_type_invariant(self);
        }
        Snake { points: copy_points(&self.points), movement: self.movement }
    }
}

impl Snake {
    #[verifier::type_invariant]
    spec fn has_head(self) -> bool {
        self.points@.len() >= 1
    }

    /// A snake of one cell at `starting_point`, standing still.
    pub fn new(starting_point: Point) -> (snake: Snake)
        ensures
            snake@ == (SnakeView { body: seq![starting_point], heading: Movement::Still }),
    {
        let mut points: VecDeque<Point> = VecDeque::new();

        points.push_front(starting_point);
        assert(points@ =~= seq![starting_point]);

        Snake { points, movement: Movement::Still }
    }

    /// The number of cells that the body covers, counting a cell once for
    /// each time the body lies on it.
    pub fn len(&self) -> (count: usize)
        ensures
            count == self@.body.len(),
            count >= 1,
    {
        proof {
            use_type_invariant(self);
        }
        self.points.len()
    }

    /// The heading of the snake.
    pub fn heading(&self) -> (heading: Movement)
        ensures
            heading == self@.heading,
    {
        self.movement
    }

    /// The snake after a request to turn to `movement`: the heading stays as
    /// it is where the request would reverse it on the spot, and becomes
    /// `movement` otherwise. The body is the same either way.
    pub fn movement(&self, movement: Movement) -> (snake: Snake)
        ensures
            snake@ == self@.turned(movement),
    {
        proof {
            use_type_invariant(self);
        }
        if movement.can_move_from(&self.movement) {
            Snake { movement, points: copy_points(&self.points) }
        } else {
            self.clone()
        }
    }

    /// A walk over the cells of the body, starting at the head.
    pub fn iter(&self) -> (walk: Iter<'_>)
        ensures
            walk.remaining() == self@.body,
    {
        let walk = Iter { internal: &self.points, position: 0 };
        assert(walk.remaining() =~= self@.body);
        walk
    }

    /// The first cell of the body.
    pub fn head(&self) -> (head: &Point)
        ensures
            self@.wf(),
            *head == self@.head(),
    {
        proof {
            use_type_invariant(self);
        }
        &self.points[0]
    }

    /// The snake with its head doubled, one cell longer.
    pub fn increase_length(&self) -> (snake: Snake)
        ensures
            snake@ == self@.grown(),
    {
        proof {
            use_type_invariant(self);
        }
        let mut points = copy_points(&self.points);
        let head: Point = *self.head();
        points.push_front(head);
        Snake { points, movement: self.movement }
    }

    /// Tells whether the body covers the cell `(x, y)`.
    pub fn covers(&self, x: u16, y: u16) -> (found: bool)
        ensures
            found == self@.covers(x as int, y as int),
    {
        let mut i: usize = 0;
        while i < self.points.len()
            invariant
                i <= self.points@.len(),
                forall|j: int| 0 <= j < i ==> !cell_is(#[trigger] self.points@[j], x as int, y as int),
            decreases self.points@.len() - i,
        {
            let cell: Point = self.points[i];
            if cell.0 == x && cell.1 == y {
                assert(cell_is(self@.body[i as int], x as int, y as int));
                return true;
            }
            i = i + 1;
        }
        false
    }
}

/// A walk over the cells of a snake, from the head to the last cell.
pub struct Iter<'a> {
    internal: &'a VecDeque<Point>,
    position: usize,
}

impl<'a> Iter<'a> {
    #[verifier::type_invariant]
    spec fn within(self) -> bool {
        self.position <= self.internal@.len()
    }

    /// The cells that the walk has still to hand out, in order.
    pub closed spec fn remaining(&self) -> Seq<Point> {
        self.internal@.skip(self.position as int)
    }

    /// Hands out the next cell of the walk, or `None` once every cell has
    /// been handed out.
    pub fn next(&mut self) -> (cell: Option<&'a Point>)
        ensures
            match cell {
                Some(point) => {
                    &&& old(self).remaining().len() > 0
                    &&& *point == old(self).remaining()[0]
                    &&& final(self).remaining() == old(self).remaining().skip(1)
                },
                None => {
                    &&& old(self).remaining().len() == 0
                    &&& final(self).remaining() == old(self).remaining()
                },
            },
    {
        proof {
            use_type_invariant(&*self);
        }
        let points: &'a VecDeque<Point> = self.internal;
        if self.position < points.len() {
            let cell = &points[self.position];
            self.position = self.position + 1;
            assert(self.remaining() =~= old(self).remaining().skip(1));
            Some(cell)
        } else {
            None
        }
    }
}

/// Moves `snake` by one cell along its heading on `grid`.
///
/// A snake that stands still is handed back as it is. A moving snake needs
/// the cell diagonally beyond its head, `head + (1, 1)`, to lie on the grid
/// (so it cannot move at all once its head is in the last column or the last
/// row), must not step below zero, and must not step onto a cell that its
/// body covers, the last one included. Then the new head is put in front and
/// the last cell is dropped. In every other case the result is `None`.
pub fn move_snake(grid: &Grid, snake: &Snake) -> (moved: Option<Snake>)
    ensures
        moved is Some <==> snake@.can_step(*grid),
        match moved {
            Some(next) => Some(next@) == snake@.step(*grid),
            None => snake@.step(*grid) is None,
        },
{
    proof {
        use_type_invariant(snake);
    }
    let (x, y) = *snake.head();

    if matches!(snake.movement, Movement::Still) {
        return Some(snake.clone());
    }
    if x >= grid.width || y >= grid.height {
        return None;
    }
    if matches!(snake.movement, Movement::Left) && x == 0 {
        return None;
    }
    if matches!(snake.movement, Movement::Down) && y == 0 {
        return None;
    }
    let next_move: Point = match snake.movement {
        Movement::Still => (x, y),
        Movement::Up => (x, y + 1),
        Movement::Right => (x + 1, y),
        Movement::Down => (x, y - 1),
        Movement::Left => (x - 1, y),
    };
    assert(next_move.0 == snake@.target().0 && next_move.1 == snake@.target().1);

    if snake.covers(next_move.0, next_move.1) {
        None
    } else {
        let mut points = copy_points(&snake.points);
        points.push_front(next_move);
        points.pop_back();
        assert(points@ =~= snake@.shifted().body);
        Some(Snake { points, movement: snake.movement })
    }
}

} // verus!
