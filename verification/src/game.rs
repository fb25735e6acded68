use crate::body::{body_cells, Body};
use crate::joystick::Direction;
use crate::rng::{wyrng, wyrng_value};
use vstd::prelude::*;

verus! {

/// Width and height of the grid.
pub const GRID_SIZE: u8 = 8;

/// The most cells a snake can have: every cell of the grid.
pub const CAPACITY: usize = 64;

/// A cell of the grid: column `x` and row `y`, rows counted downwards.
#[derive(Clone, Copy, Debug, PartialEq, Eq, Structural)]
pub struct Point {
    pub x: u8,
    pub y: u8,
}

impl Point {
    /// Both coordinates lie on the grid.
    pub open spec fn on_grid(self) -> bool {
        self.x < GRID_SIZE && self.y < GRID_SIZE
    }

    /// The cell one step away in a cardinal direction, on a grid whose
    /// opposite edges are joined: North and East count a coordinate down,
    /// South and West count it up, both modulo the size of the grid.
    pub open spec fn neighbour(self, direction: Direction) -> Point {
        match direction {
            Direction::North => Point { x: self.x, y: ((self.y - 1) % (GRID_SIZE as int)) as u8 },
            Direction::East => Point { x: ((self.x - 1) % (GRID_SIZE as int)) as u8, y: self.y },
            Direction::South => Point { x: self.x, y: ((self.y + 1) % (GRID_SIZE as int)) as u8 },
            Direction::West => Point { x: ((self.x + 1) % (GRID_SIZE as int)) as u8, y: self.y },
            _ => self,
        }
    }
}

/// What a snake is: its cells from head to tail, and where it is heading.
pub struct SnakeView {
    pub body: Seq<Point>,
    pub heading: Direction,
}

impl SnakeView {
    /// At least one cell and no more than the grid has, all on the grid.
    pub open spec fn cells_wf(self) -> bool {
        &&& 1 <= self.body.len() <= CAPACITY
        &&& forall|i: int| 0 <= i < self.body.len() ==> (#[trigger] self.body[i]).on_grid()
    }

    /// Valid cells and a cardinal heading: a snake that can move.
    pub open spec fn wf(self) -> bool {
        &&& self.cells_wf()
        &&& self.heading.is_cardinal()
    }

    /// A snake of one cell.
    pub open spec fn single(start: Point, heading: Direction) -> SnakeView {
        SnakeView { body: seq![start], heading }
    }

    /// The cell of the head.
    pub open spec fn head(self) -> Point {
        self.body[0]
    }

    /// Whether the snake has as many cells as the grid.
    pub open spec fn is_full(self) -> bool {
        self.body.len() == CAPACITY
    }

    /// The snake after a request to head another way. Only a cardinal
    /// direction that is not the reverse of the present heading is taken.
    pub open spec fn turned(self, requested: Direction) -> SnakeView {
        if requested.is_cardinal() && requested != self.heading.reversed() {
            SnakeView { body: self.body, heading: requested }
        } else {
            self
        }
    }

    /// The snake after the joystick's report: no report, no change.
    pub open spec fn steered(self, input: Option<Direction>) -> SnakeView {
        match input {
            Some(requested) => self.turned(requested),
            None => self,
        }
    }

    /// The cell that the head moves to next.
    pub open spec fn next_head(self) -> Point {
        self.head().neighbour(self.heading)
    }

    /// The snake one step later. A new head is put in front unless the snake
    /// is full; the tail cell goes unless fruit was eaten.
    pub open spec fn advanced(self, ate_fruit: bool) -> SnakeView {
        let grown = if self.is_full() {
            self.body
        } else {
            seq![self.next_head()] + self.body
        };
        SnakeView { body: if ate_fruit { grown } else { grown.drop_last() }, heading: self.heading }
    }

    /// The head shares its cell with another cell of the body.
    pub open spec fn collided(self) -> bool {
        exists|i: int| 1 <= i < self.body.len() && #[trigger] self.body[i] == self.body[0]
    }
}

/// The bit of cell `p` in a frame of eight rows: row `p.y`, bit `p.x`.
pub open spec fn lit(rows: [u8; 8], p: Point) -> bool {
    rows[p.y as int] & (1u8 << p.x) != 0
}

/// The snake: its cells from head to tail, and its heading.
pub struct Snake {
    body: Body,
    direction: Direction,
}

impl View for Snake {
    type V = SnakeView;

    closed spec fn view(&self) -> SnakeView {
        SnakeView { body: body_cells(self.body), heading: self.direction }
    }
}

proof fn lemma_or_bit(row: u8, k: u8, x: u8)
    by (bit_vector)
    requires
        k < 8,
        x < 8,
    ensures
        ((row | (1u8 << k)) & (1u8 << x) != 0) == ((row & (1u8 << x) != 0) || x == k),
{
}

impl Snake {
    /// The cells are valid ones.
    pub open spec fn cells_wf(&self) -> bool {
        self@.cells_wf()
    }

    /// The snake is a valid one, and can move.
    pub open spec fn wf(&self) -> bool {
        self@.wf()
    }

    /// A snake of one cell. It can move once its heading is cardinal.
    pub fn new(start_point: Point, start_direction: Direction) -> (snake: Snake)
        requires
            start_point.on_grid(),
        ensures
            snake@ == SnakeView::single(start_point, start_direction),
            snake.cells_wf(),
            start_direction.is_cardinal() ==> snake.wf(),
    {
        let mut body = Body::new();
        // An empty body has room.
        let _ = body.push(start_point);
        Snake { body, direction: start_direction }
    }

    /// Takes `requested` as the new heading if it is cardinal and not the
    /// reverse of the present heading; otherwise leaves the heading alone.
    pub fn set_heading(&mut self, requested: Direction)
        ensures
            final(self)@ == old(self)@.turned(requested),
            final(self).cells_wf() == old(self).cells_wf(),
            old(self).wf() ==> final(self).wf(),
            requested == old(self)@.heading.reversed() ==> final(self)@ == old(self)@,
            !requested.is_cardinal() ==> final(self)@ == old(self)@,
    {
        if let Some(dir) = Snake::direction_conversion(requested) {
            // Don't let the snake turn 180 in on itself.
            if !dir.opposite(&self.direction) {
                self.direction = dir;
            }
        }
    }

    /// Moves the snake one step along its heading.
    pub fn advance(&mut self, ate_fruit: bool)
        requires
            old(self).wf(),
        ensures
            final(self).wf(),
            final(self)@ == old(self)@.advanced(ate_fruit),
            !ate_fruit && !old(self)@.is_full() ==> final(self)@.body.len() == old(
                self,
            )@.body.len(),
            ate_fruit && !old(self)@.is_full() ==> final(self)@.body.len() == old(self)@.body.len()
                + 1,
            ate_fruit && old(self)@.is_full() ==> final(self)@.body.len() == old(self)@.body.len()
                && final(self)@.is_full(),
    {
        let ghost before = self@;
        let next_head = self.next_head(self.direction, self.head());
        self.body.reverse();
        if !self.is_full() {
            let _ = self.body.push(next_head);
        }
        self.body.reverse();
        proof {
            let grown = if before.is_full() {
                before.body
            } else {
                seq![before.next_head()] + before.body
            };
            assert(body_cells(self.body) =~= grown);
        }
        if !ate_fruit {
            self.body.pop();
        }
    }

    /// One turn of the game for the snake: a change of heading, if one was
    /// asked for, and then a step.
    pub fn slither(&mut self, new_direction: Option<Direction>, ate_fruit: bool)
        requires
            old(self)@.steered(new_direction).wf(),
        ensures
            final(self).wf(),
            final(self)@ == old(self)@.steered(new_direction).advanced(ate_fruit),
    {
        // Update the snake's direction if supplied
        if let Some(dir) = new_direction {
            self.set_heading(dir);
        }
        self.advance(ate_fruit);
    }

    /// The snake as a frame for the display: the bit of a cell is set
    /// exactly when the snake lies on it.
    pub fn render(&self) -> (rows: [u8; 8])
        requires
            self.cells_wf(),
        ensures
            forall|p: Point| p.on_grid() ==> (#[trigger] lit(rows, p) <==> self@.body.contains(p)),
    {
        let mut rows: [u8; 8] = [0, 0, 0, 0, 0, 0, 0, 0];
        let cells = self.body.as_slice();
        assert forall|p: Point| p.on_grid() implies !#[trigger] lit(rows, p) by {
            assert(0u8 & (1u8 << p.x) == 0) by (bit_vector);
        }
        let mut i: usize = 0;
        while i < cells.len()
            invariant
                i <= cells.len(),
                cells@ == self@.body,
                self.cells_wf(),
                forall|p: Point|
                    p.on_grid() ==> (#[trigger] lit(rows, p) <==> exists|j: int|
                        0 <= j < i && cells@[j] == p),
            decreases cells.len() - i,
        {
            let cell = cells[i];
            let ghost prev = rows;
            let row: usize = cell.y as usize;
            rows[row] = rows[row] | (1u8 << cell.x);
            assert forall|p: Point| p.on_grid() implies (#[trigger] lit(rows, p) <==> exists|j: int|
                0 <= j < i + 1 && cells@[j] == p) by {
                if p.y == cell.y {
                    lemma_or_bit(prev[cell.y as int], cell.x, p.x);
                }
                assert(lit(prev, p) <==> exists|j: int| 0 <= j < i && cells@[j] == p);
            }
            i += 1;
        }
        rows
    }

    /// The heading.
    pub fn direction(&self) -> (direction: Direction)
        ensures
            direction == self@.heading,
    {
        self.direction
    }

    /// The cells from head to tail.
    pub fn cells(&self) -> (cells: Vec<Point>)
        ensures
            cells@ == self@.body,
    {
        let body = self.body.as_slice();
        let mut cells: Vec<Point> = Vec::new();
        let mut i: usize = 0;
        while i < body.len()
            invariant
                i <= body.len(),
                cells@ == body@.take(i as int),
            decreases body.len() - i,
        {
            cells.push(body[i]);
            i += 1;
        }
        cells
    }

    /// Whether the snake fills the whole grid.
    pub fn is_full(&self) -> (full: bool)
        ensures
            full == self@.is_full(),
    {
        self.len() == self.body.capacity()
    }

    /// The number of cells.
    pub fn len(&self) -> (len: usize)
        ensures
            len == self@.body.len(),
    {
        self.body.as_slice().len()
    }

    /// The cell of the head.
    pub fn head(&self) -> (head: Point)
        requires
            self.cells_wf(),
        ensures
            head == self@.head(),
            head.on_grid(),
    {
        self.body.as_slice()[0]
    }

    /// Whether the head has run into the rest of the body.
    pub fn collided_with_tail(&self) -> (hit: bool)
        requires
            self.cells_wf(),
        ensures
            hit == self@.collided(),
    {
        let head = self.head();
        let cells = self.body.as_slice();
        let mut i: usize = 1;
        while i < cells.len()
            invariant
                1 <= i <= cells.len(),
                cells@ == self@.body,
                head == self@.body[0],
                forall|j: int| 1 <= j < i ==> cells@[j] != head,
            decreases cells.len() - i,
        {
            if cells[i] == head {
                return true;
            }
            i += 1;
        }
        false
    }

    /// The cell next to `current_head` in a cardinal `direction`.
    pub fn next_head(&self, direction: Direction, current_head: Point) -> (next: Point)
        requires
            direction.is_cardinal(),
            current_head.on_grid(),
        ensures
            next == current_head.neighbour(direction),
            next.on_grid(),
    {
        let bound: u32 = GRID_SIZE as u32;
        let mut next = current_head;
        match direction {
            Direction::North => {
                next.y = Snake::bounded_subtract_one(current_head.y as u32, bound) as u8
            },
            Direction::East => {
                next.x = Snake::bounded_subtract_one(current_head.x as u32, bound) as u8
            },
            Direction::South => {
                next.y = Snake::bounded_add_one(current_head.y as u32, bound) as u8
            },
            Direction::West => {
                next.x = Snake::bounded_add_one(current_head.x as u32, bound) as u8
            },
            _ => {},
        }
        next
    }

    /// `val + 1`, starting again from 0 at `bound`.
    pub fn bounded_add_one(val: u32, bound: u32) -> (r: u32)
        requires
            bound > 0,
            val < u32::MAX,
        ensures
            r == (val + 1) % (bound as int),
    {
        (val + 1) % bound
    }

    /// `val - 1`, with `bound - 1` below 0.
    pub fn bounded_subtract_one(val: u32, bound: u32) -> (r: u32)
        requires
            bound > 0,
        ensures
            r == if val == 0 {
                bound - 1
            } else {
                val - 1
            },
            val < bound ==> r == (val - 1) % (bound as int),
    {
        if val == 0 {
            assert((0 - 1) % (bound as int) == bound - 1) by (nonlinear_arith)
                requires
                    bound > 0,
            ;
            bound - 1
        } else {
            assert(val < bound ==> (val - 1) % (bound as int) == val - 1) by (nonlinear_arith)
                requires
                    val > 0,
            ;
            val - 1
        }
    }

    /// Keeps the four cardinal directions and drops the diagonals.
    pub fn direction_conversion(direction: Direction) -> (r: Option<Direction>)
        ensures
            r == if direction.is_cardinal() {
                Some(direction)
            } else {
                None
            },
    {
        // Keep processing as simple as possible by ignoring some points of the compass
        match direction {
            Direction::NorthWest
            | Direction::SouthEast
            | Direction::NorthEast
            | Direction::SouthWest => None,
            _ => Some(direction),
        }
    }
}

/// Where a snake of one cell at `p` ends when it takes one step in the
/// direction `out`, and a snake of one cell that starts there takes one step
/// in the reverse direction.
pub open spec fn there_and_back(p: Point, out: Direction) -> SnakeView {
    let there = SnakeView::single(p, out).advanced(false);
    SnakeView::single(there.head(), out.reversed()).advanced(false)
}

/// A step in a cardinal direction stays on the grid, and a step the reverse
/// way undoes it, also across the edges: North and then South, East and
/// then West, return to the first cell.
pub proof fn lemma_step_and_step_back(p: Point, out: Direction)
    requires
        p.on_grid(),
        out.is_cardinal(),
    ensures
        p.neighbour(out).on_grid(),
        p.neighbour(out).neighbour(out.reversed()) == p,
        there_and_back(p, out).body == seq![p],
{
}

/// A step keeps a snake valid. A snake that does not fill the grid keeps
/// its length when it has not eaten and gains one cell when it has. A snake
/// that fills the grid gains none.
pub proof fn lemma_length_after_advance(snake: SnakeView, ate_fruit: bool)
    requires
        snake.wf(),
    ensures
        snake.advanced(ate_fruit).wf(),
        !ate_fruit && !snake.is_full() ==> snake.advanced(ate_fruit).body.len()
            == snake.body.len(),
        ate_fruit && !snake.is_full() ==> snake.advanced(ate_fruit).body.len() == snake.body.len()
            + 1,
        ate_fruit && snake.is_full() ==> snake.advanced(ate_fruit).body.len() == snake.body.len()
            && snake.advanced(ate_fruit).is_full(),
{
    lemma_step_and_step_back(snake.head(), snake.heading);
}

/// A request to head the reverse way, or along a diagonal, changes
/// nothing, so that no request makes a snake head the reverse way.
pub proof fn lemma_refused_headings(snake: SnakeView, requested: Direction)
    ensures
        snake.turned(snake.heading.reversed()) == snake,
        !requested.is_cardinal() ==> snake.turned(requested) == snake,
        snake.turned(requested).heading != snake.heading.reversed(),
{
}

/// The cells of the body that are still there after a step: all of them
/// if fruit was eaten, all but the tail cell if not.
pub open spec fn staying_cells(snake: SnakeView, ate_fruit: bool) -> Seq<Point> {
    if ate_fruit {
        snake.body
    } else {
        snake.body.drop_last()
    }
}

/// After a step of a snake that does not fill the grid, the snake has run
/// into itself exactly if its new head lies on a cell of the body that is
/// still there.
pub proof fn lemma_collision_after_advance(snake: SnakeView, ate_fruit: bool)
    requires
        snake.wf(),
        !snake.is_full(),
    ensures
        snake.advanced(ate_fruit).head() == snake.next_head(),
        snake.advanced(ate_fruit).collided() <==> staying_cells(snake, ate_fruit).contains(
            snake.next_head(),
        ),
{
    let after = snake.advanced(ate_fruit);
    let staying = staying_cells(snake, ate_fruit);
    let next = snake.next_head();
    if after.collided() {
        let i = choose|i: int| 1 <= i < after.body.len() && #[trigger] after.body[i] == after.body[0];
        assert(staying[i - 1] == next);
    }
    if staying.contains(next) {
        let j = choose|j: int| 0 <= j < staying.len() && staying[j] == next;
        assert(after.body[j + 1] == after.body[0]);
    }
}

/// After a step of a snake that does not fill the grid, the snake has run
/// into itself exactly if its new head lies on a cell that the body had
/// before the step. The one step left out is that of a snake that has not
/// eaten and whose new head meets no cell but the tail cell, which the same
/// step gives up.
pub proof fn lemma_collision_with_the_body(snake: SnakeView, ate_fruit: bool)
    requires
        snake.wf(),
        !snake.is_full(),
        ate_fruit || snake.body.drop_last().contains(snake.next_head()) || snake.body.last()
            != snake.next_head(),
    ensures
        snake.advanced(ate_fruit).collided() <==> snake.body.contains(snake.next_head()),
{
    lemma_collision_after_advance(snake, ate_fruit);
    let staying = staying_cells(snake, ate_fruit);
    let next = snake.next_head();
    if snake.body.contains(next) && !staying.contains(next) {
        let j = choose|j: int| 0 <= j < snake.body.len() && snake.body[j] == next;
        if j < snake.body.len() - 1 {
            assert(staying[j] == next);
        }
    }
}

/// Whether a game is still being played.
#[derive(Clone, Copy, Debug, PartialEq, Eq, Structural)]
pub enum GameState {
    Running,
    GameOver,
}

/// The two seeds from which one random point is drawn, one for each axis.
/// On the board they are two readings of the time elapsed since start-up.
#[derive(Clone, Copy, Debug, PartialEq, Eq, Structural)]
pub struct PointSeed {
    pub x: u64,
    pub y: u64,
}

/// The point made of two random draws: each draw modulo the size of the
/// grid.
pub open spec fn drawn_point(x_draw: u64, y_draw: u64) -> Point {
    Point { x: (x_draw % (GRID_SIZE as u64)) as u8, y: (y_draw % (GRID_SIZE as u64)) as u8 }
}

/// The point that a pair of seeds gives.
pub open spec fn seeded_point(seed: PointSeed) -> Point {
    drawn_point(wyrng_value(seed.x), wyrng_value(seed.y))
}

/// What a game is: the snake, the fruit, and whether play goes on.
pub struct GameView {
    pub snake: SnakeView,
    pub fruit: Point,
    pub state: GameState,
}

impl GameView {
    /// A valid snake, a fruit on the grid, and no running game with a snake
    /// that fills the grid or has run into itself.
    pub open spec fn wf(self) -> bool {
        &&& self.snake.wf()
        &&& self.fruit.on_grid()
        &&& self.state == GameState::Running ==> !self.snake.is_full() && !self.snake.collided()
    }

    /// A fresh game: a snake of one cell heading West, and a fruit.
    pub open spec fn started(start: Point, fruit: Point) -> GameView {
        GameView {
            snake: SnakeView::single(start, Direction::West),
            fruit,
            state: GameState::Running,
        }
    }

    /// Whether the head lies on the fruit.
    pub open spec fn on_fruit(self) -> bool {
        self.snake.head() == self.fruit
    }

    /// The snake segments gained so far.
    pub open spec fn score(self) -> int {
        self.snake.body.len() - 1
    }

    /// The game one tick later. A finished game stays as it is. Otherwise
    /// the snake takes the input and moves, growing if its head lay on the
    /// fruit before the move; the game ends if the snake has then run into
    /// itself or fills the grid; if it goes on and the fruit was eaten, the
    /// fruit moves to `next_fruit`.
    pub open spec fn ticked(self, input: Option<Direction>, next_fruit: Point) -> GameView {
        if self.state == GameState::GameOver {
            self
        } else {
            let ate_fruit = self.on_fruit();
            let snake = self.snake.steered(input).advanced(ate_fruit);
            if snake.collided() || snake.is_full() {
                GameView { snake, fruit: self.fruit, state: GameState::GameOver }
            } else {
                GameView {
                    snake,
                    fruit: if ate_fruit { next_fruit } else { self.fruit },
                    state: GameState::Running,
                }
            }
        }
    }
}

/// A tick keeps a game valid. A game that is over stays exactly as it is.
/// In a running game whose snake has its head on the fruit, the snake
/// gains one cell and the score goes up by one.
pub proof fn lemma_tick(game: GameView, input: Option<Direction>, next_fruit: Point)
    requires
        game.wf(),
        next_fruit.on_grid(),
    ensures
        game.ticked(input, next_fruit).wf(),
        game.state == GameState::GameOver ==> game.ticked(input, next_fruit) == game,
        game.state == GameState::Running && game.on_fruit() ==> {
            &&& game.ticked(input, next_fruit).snake.body.len() == game.snake.body.len() + 1
            &&& game.ticked(input, next_fruit).score() == game.score() + 1
        },
        game.state == GameState::Running && !game.on_fruit() ==> game.ticked(
            input,
            next_fruit,
        ).score() == game.score(),
{
    if game.state == GameState::Running {
        lemma_length_after_advance(game.snake.steered(input), game.on_fruit());
    }
}

/// The game: it owns the snake and the fruit, and nothing else changes
/// them.
pub struct Game {
    snake: Snake,
    fruit: Point,
    state: GameState,
}

impl View for Game {
    type V = GameView;

    closed spec fn view(&self) -> GameView {
        GameView { snake: self.snake@, fruit: self.fruit, state: self.state }
    }
}

impl Game {
    /// The game is a valid one.
    pub open spec fn wf(&self) -> bool {
        self@.wf()
    }

    /// A fresh game whose snake and fruit are placed by two pairs of seeds.
    pub fn new(start: PointSeed, fruit: PointSeed) -> (game: Game)
        ensures
            game.wf(),
            game@ == GameView::started(seeded_point(start), seeded_point(fruit)),
    {
        Game::start_at(Game::random_point(start), Game::random_point(fruit))
    }

    /// A fresh game with the snake and the fruit on the given cells.
    pub fn start_at(start: Point, fruit: Point) -> (game: Game)
        requires
            start.on_grid(),
            fruit.on_grid(),
        ensures
            game.wf(),
            game@ == GameView::started(start, fruit),
    {
        Game { snake: Snake::new(start, Direction::West), fruit, state: GameState::Running }
    }

    /// The snake.
    pub fn snake(&self) -> (snake: &Snake)
        ensures
            snake@ == self@.snake,
    {
        &self.snake
    }

    /// The cell of the fruit.
    pub fn fruit(&self) -> (fruit: Point)
        ensures
            fruit == self@.fruit,
    {
        self.fruit
    }

    /// Whether the game is running or over.
    pub fn state(&self) -> (state: GameState)
        ensures
            state == self@.state,
    {
        self.state
    }

    /// Tick the game forward. Returns the state of the game after the tick.
    /// If the fruit is eaten and play goes on, the next fruit is placed by
    /// `fruit`.
    pub fn tick(&mut self, user_input: Option<Direction>, fruit: PointSeed) -> (state: GameState)
        requires
            old(self).wf(),
        ensures
            final(self).wf(),
            final(self)@ == old(self)@.ticked(user_input, seeded_point(fruit)),
            state == final(self)@.state,
            old(self)@.state == GameState::GameOver ==> state == GameState::GameOver && *final(self)
                == *old(self),
            old(self)@.state == GameState::Running && old(self)@.on_fruit() ==> {
                &&& final(self)@.snake.body.len() == old(self)@.snake.body.len() + 1
                &&& final(self)@.score() == old(self)@.score() + 1
            },
    {
        self.step(user_input, Game::random_point(fruit))
    }

    /// Tick the game forward, with the cell that the next fruit goes to if
    /// this tick calls for one.
    pub fn step(&mut self, user_input: Option<Direction>, next_fruit: Point) -> (state: GameState)
        requires
            old(self).wf(),
            next_fruit.on_grid(),
        ensures
            final(self).wf(),
            final(self)@ == old(self)@.ticked(user_input, next_fruit),
            state == final(self)@.state,
            old(self)@.state == GameState::GameOver ==> state == GameState::GameOver && *final(self)
                == *old(self),
            old(self)@.state == GameState::Running && old(self)@.on_fruit() ==> {
                &&& final(self)@.snake.body.len() == old(self)@.snake.body.len() + 1
                &&& final(self)@.score() == old(self)@.score() + 1
            },
    {
        if self.state == GameState::GameOver {
            return self.state;
        }
        // Check if the snake's head is on top of the fruit then slither forward.
        let ate_fruit: bool = self.snake.head() == self.fruit;
        self.snake.slither(user_input, ate_fruit);

        // Check for gameover state
        if self.is_game_over() {
            self.state = GameState::GameOver;
            return self.state;
        }
        if ate_fruit {
            self.fruit = next_fruit;
        }
        GameState::Running
    }

    /// The game as a frame for the display: the bit of a cell is set
    /// exactly when the snake or the fruit lies on it.
    pub fn render(&mut self) -> (rows: [u8; 8])
        requires
            old(self).wf(),
        ensures
            *final(self) == *old(self),
            forall|p: Point|
                p.on_grid() ==> (#[trigger] lit(rows, p) <==> old(self)@.snake.body.contains(p) || p
                    == old(self)@.fruit),
    {
        let mut world = self.snake.render();
        let ghost snake_rows = world;
        let row: usize = self.fruit.y as usize;
        world[row] = world[row] | (1u8 << self.fruit.x);
        assert forall|p: Point| p.on_grid() implies (#[trigger] lit(world, p)
            <==> self@.snake.body.contains(p) || p == self@.fruit) by {
            if p.y == self.fruit.y {
                lemma_or_bit(snake_rows[p.y as int], self.fruit.x, p.x);
            }
            assert(lit(snake_rows, p) <==> self@.snake.body.contains(p));
        }
        world
    }

    /// Starts over: a snake of one cell heading West and a fruit, placed by
    /// two pairs of seeds as in `new`.
    pub fn reset(&mut self, start: PointSeed, fruit: PointSeed)
        ensures
            final(self).wf(),
            final(self)@ == GameView::started(seeded_point(start), seeded_point(fruit)),
    {
        self.restart_at(Game::random_point(start), Game::random_point(fruit));
    }

    /// Starts over with the snake and the fruit on the given cells.
    pub fn restart_at(&mut self, start: Point, fruit: Point)
        requires
            start.on_grid(),
            fruit.on_grid(),
        ensures
            final(self).wf(),
            final(self)@ == GameView::started(start, fruit),
    {
        self.snake = Snake::new(start, Direction::West);
        self.fruit = fruit;
        self.state = GameState::Running;
    }

    /// Check for game over conditions: the snake has run into itself or
    /// fills the grid.
    pub fn is_game_over(&self) -> (over: bool)
        requires
            self@.snake.cells_wf(),
        ensures
            over == (self@.snake.collided() || self@.snake.is_full()),
    {
        self.snake.collided_with_tail() || self.snake.is_full()
    }

    /// Get the current score: the player always starts with one segment, the
    /// snake's head, which does not count.
    pub fn score(&self) -> (score: usize)
        requires
            self.wf(),
        ensures
            score == self@.score(),
    {
        self.snake.len() - 1
    }

    /// Generate a random x / y co-ordinate from a pair of seeds.
    pub fn random_point(seed: PointSeed) -> (p: Point)
        ensures
            p == seeded_point(seed),
            p.on_grid(),
    {
        Game::point_from_draws(wyrng(seed.x), wyrng(seed.y))
    }

    /// The point made of two random draws.
    pub fn point_from_draws(x_draw: u64, y_draw: u64) -> (p: Point)
        ensures
            p == drawn_point(x_draw, y_draw),
            p.on_grid(),
    {
        Point { x: (x_draw % GRID_SIZE as u64) as u8, y: (y_draw % GRID_SIZE as u64) as u8 }
    }
}

} // verus!
