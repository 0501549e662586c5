//! The engine: one snake, one pit, and the current food position. A tick
//! moves the snake, checks termination, checks food consumption, and
//! replaces the food.

use vstd::prelude::*;
use crate::geometry::{Point, Direction, step};
use crate::pit::{SnakePit, out_of_bounds};
use crate::snake::{Snake, body_contains, moved_body, self_colliding, lemma_moved_body_facts};
use rand::Rng;

verus! {

/// What a tick reports: the game goes on at the given level, or has ended
/// on a wall or self-collision.
#[derive(Debug, PartialEq, Eq, Structural)]
pub enum GameStatus {
    ContinueAtLevel(i32),
    Finished,
}

/// True iff `p` is a playable interior cell of `pit`: strictly inside the
/// wall ring on every side.
pub open spec fn in_interior(p: Point, pit: SnakePit) -> bool {
    1 <= p.x < pit.width && 1 <= p.y < pit.height
}

/// True iff some interior cell of `pit` is not covered by `body`: a cell
/// where food could be placed.
pub open spec fn free_cell_exists(body: Seq<Point>, pit: SnakePit) -> bool {
    exists|p: Point| in_interior(p, pit) && !body_contains(body, p)
}

/// Food that is not on the body and is not reached by the moving head stays
/// off the body across a move: every cell of the moved body was a body cell
/// before, except the new head.
pub proof fn lemma_snack_stays_clear(body: Seq<Point>, d: Direction, grow: bool, snack: Point)
    requires
        body.len() >= 1,
        !body_contains(body, snack),
        step(body.last(), d) != snack,
    ensures
        !body_contains(moved_body(body, d, grow), snack),
{
    let moved = moved_body(body, d, grow);
    lemma_moved_body_facts(body, d, grow);
    assert forall|i: int| 0 <= i < moved.len() implies moved[i] != snack by {
        if i < moved.len() - 1 {
            let j: int = if grow { i } else { i + 1 };
            assert(moved[i] == body[j]);
        } else {
            assert(moved[i] == step(body.last(), d));
        }
    }
}

/// Relies on rand: `rand::thread_rng` yields a generator whose
/// `Rng::gen_range` on the range `0..n` returns a value drawn uniformly
/// from that range, so the result is always below `n`. `gen_range` panics
/// on an empty range, hence the precondition.
#[verifier::external_body]
fn random_below(n: usize) -> (choice: usize)
    requires
        n >= 1,
    ensures
        choice < n,
{
    let mut rng = rand::thread_rng();
    rng.gen_range(0..n)
}

/// The free cells of column `x` among rows `1..rows`: the interior cells of
/// that column, top to bottom, skipping cells covered by `body`.
pub open spec fn free_cells_in_column(body: Seq<Point>, x: u32, rows: int) -> Seq<Point>
    decreases rows,
{
    if rows <= 1 {
        Seq::empty()
    } else {
        free_cells_in_column(body, x, rows - 1) + (
            if body_contains(body, Point { x, y: (rows - 1) as u32 }) {
                Seq::empty()
            } else {
                seq![Point { x, y: (rows - 1) as u32 }]
            }
        )
    }
}

/// The free interior cells of columns `1..cols`, column by column and top to
/// bottom within a column, skipping cells covered by `body`.
pub open spec fn free_cells_upto(body: Seq<Point>, height: u32, cols: int) -> Seq<Point>
    decreases cols,
{
    if cols <= 1 {
        Seq::empty()
    } else {
        free_cells_upto(body, height, cols - 1) + free_cells_in_column(body, (cols - 1) as u32, height as int)
    }
}

/// Every interior cell of `pit` not covered by `body`, in x-major order:
/// the candidate set for food placement, in the order it is enumerated.
pub open spec fn free_cells(body: Seq<Point>, pit: SnakePit) -> Seq<Point> {
    free_cells_upto(body, pit.height, pit.width as int)
}

/// The whole game: a snake, the pit it moves in, where the food is, and
/// whether the run has ended. Once `finished` is set it never clears:
/// `Finished` is a terminal state.
pub struct SnakeEngine {
    pub snake: Snake,
    pub snake_pit: SnakePit,
    pub snack_position: Point,
    pub finished: bool,
}

impl SnakeEngine {
    /// An engine is well formed when its snake is.
    pub open spec fn wf(self) -> bool {
        self.snake@.wf()
    }

    /// True iff the food does not sit on any snake body cell. Established
    /// at construction and after each successful food replacement; the one
    /// rest state without it is a full grid, where eaten food stays where
    /// it was until a cell frees up.
    pub open spec fn snack_clear(self) -> bool {
        !body_contains(self.snake@.body, self.snack_position)
    }

    /// A new engine with the default snake length of 3.
    pub fn new(snake_pit_height: u32, snake_pit_width: u32) -> (engine: Option<SnakeEngine>)
        ensures
            engine is Some <==> free_cell_exists(
                crate::snake::initial_body(3, Point { x: 2, y: 2 }),
                SnakePit { height: snake_pit_height, width: snake_pit_width },
            ),
            engine matches Some(e) ==> e.wf() && e.snake@.body == crate::snake::initial_body(3, Point { x: 2, y: 2 })
                && e.snake@.direction == Direction::Right
                && !e.snake@.growing
                && e.snake_pit == (SnakePit { height: snake_pit_height, width: snake_pit_width })
                && in_interior(e.snack_position, e.snake_pit)
                && e.snack_clear()
                && !e.finished,
    {
        Self::new_with_snake_length(snake_pit_height, snake_pit_width, 3)
    }

    /// A new engine: a pit of the given dimensions and a snake of
    /// `snake_length` cells laid out rightward from the fixed origin (2, 2),
    /// heading right, with the initial food placed on a free interior cell.
    /// Returns `None` exactly when no interior cell is free for the food,
    /// which makes the engine impossible to build in a valid state.
    pub fn new_with_snake_length(
        snake_pit_height: u32,
        snake_pit_width: u32,
        snake_length: u32,
    ) -> (engine: Option<SnakeEngine>)
        requires
            1 <= snake_length <= u32::MAX - 1,
        ensures
            engine is Some <==> free_cell_exists(
                crate::snake::initial_body(snake_length, Point { x: 2, y: 2 }),
                SnakePit { height: snake_pit_height, width: snake_pit_width },
            ),
            engine matches Some(e) ==> e.wf() && e.snake@.body == crate::snake::initial_body(snake_length, Point { x: 2, y: 2 })
                && e.snake@.direction == Direction::Right
                && !e.snake@.growing
                && e.snake_pit == (SnakePit { height: snake_pit_height, width: snake_pit_width })
                && in_interior(e.snack_position, e.snake_pit)
                && e.snack_clear()
                && !e.finished,
    {
        let snake_pit = SnakePit { height: snake_pit_height, width: snake_pit_width };
        let snake = Snake::new(snake_length, Point { x: 2, y: 2 });
        if let Some(snack_position) = Self::generate_snack(&snake_pit, &snake) {
            Some(SnakeEngine { snake, snake_pit, snack_position, finished: false })
        } else {
            None
        }
    }

    /// Forward a heading change to the snake; it takes effect on the next
    /// tick.
    pub fn change_snake_direction(&mut self, direction: Direction)
        ensures
            final(self).snake@ == old(self).snake@.with_direction(direction),
            final(self).snake_pit == old(self).snake_pit,
            final(self).snack_position == old(self).snack_position,
            final(self).finished == old(self).finished,
    {
        self.snake.change_direction(direction);
    }

    /// One simulation step. `Finished` is terminal: a tick on a finished
    /// engine reports `Finished` again and changes nothing. Otherwise: move
    /// the snake; if the new head is on the wall ring or the snake eats
    /// itself, record the terminal state and report `Finished` (the snake is
    /// left as-is for display of the terminal frame); otherwise, if the head
    /// reached the food, defer one growth and try to place new food, leaving
    /// the food where it is when no interior cell is free. The wall and
    /// self-collision checks come strictly before the food check: a move
    /// that reaches food while exiting bounds still ends the game.
    pub fn tick(&mut self) -> (status: GameStatus)
        requires
            old(self).wf(),
        ensures
            final(self).wf(),
            final(self).snake_pit == old(self).snake_pit,
            final(self).finished <==> status == GameStatus::Finished,
            status != GameStatus::Finished ==> status == GameStatus::ContinueAtLevel(0),
            old(self).finished ==> status == GameStatus::Finished && *final(self) == *old(self),
            !old(self).finished ==> final(self).snake@.body == moved_body(old(self).snake@.body, old(self).snake@.direction, old(self).snake@.growing),
            !old(self).finished ==> final(self).snake@.direction == old(self).snake@.direction,
            !old(self).finished ==> (status == GameStatus::Finished <==> (
                out_of_bounds(step(old(self).snake@.head(), old(self).snake@.direction), old(self).snake_pit)
                || self_colliding(final(self).snake@.body)
            )),
            !old(self).finished && status == GameStatus::Finished ==> final(self).snack_position == old(self).snack_position
                && !final(self).snake@.growing,
            !old(self).finished && status != GameStatus::Finished ==> {
                let eaten = step(old(self).snake@.head(), old(self).snake@.direction) == old(self).snack_position;
                &&& !eaten ==> final(self).snack_position == old(self).snack_position && !final(self).snake@.growing
                &&& eaten ==> final(self).snake@.growing
                &&& eaten && free_cell_exists(final(self).snake@.body, old(self).snake_pit)
                    ==> in_interior(final(self).snack_position, old(self).snake_pit) && final(self).snack_clear()
                &&& eaten && !free_cell_exists(final(self).snake@.body, old(self).snake_pit)
                    ==> final(self).snack_position == old(self).snack_position
            },
            old(self).snack_clear() && !old(self).finished && status != GameStatus::Finished
                && !(step(old(self).snake@.head(), old(self).snake@.direction) == old(self).snack_position
                    && !free_cell_exists(final(self).snake@.body, old(self).snake_pit))
                ==> final(self).snack_clear(),
    {
        if self.finished {
            return GameStatus::Finished;
        }
        proof {
            lemma_moved_body_facts(old(self).snake@.body, old(self).snake@.direction, old(self).snake@.growing);
        }
        self.snake.move_to_next_position();
        if self.snake.collides_with_bounds(&self.snake_pit) || self.snake.is_eating_itself() {
            self.finished = true;
            return GameStatus::Finished;
        }
        if self.snake.is_eating_snack(&self.snack_position) {
            self.snake.make_longer();
            if let Some(snack_position) = Self::generate_snack(&self.snake_pit, &self.snake) {
                self.snack_position = snack_position;
            }
        } else {
            proof {
                if old(self).snack_clear() {
                    lemma_snack_stays_clear(
                        old(self).snake@.body,
                        old(self).snake@.direction,
                        old(self).snake@.growing,
                        old(self).snack_position,
                    );
                }
            }
        }
        GameStatus::ContinueAtLevel(0)
    }

    /// The candidate set for food placement, built by enumeration: exactly
    /// the sequence [`free_cells`] describes, with every element interior
    /// and off the body, and with every free interior cell present.
    fn collect_free_cells(snake_pit: &SnakePit, snake: &Snake) -> (cells: Vec<Point>)
        ensures
            cells@ == free_cells(snake@.body, *snake_pit),
            forall|i: int| 0 <= i < cells@.len()
                ==> in_interior(#[trigger] cells@[i], *snake_pit) && !body_contains(snake@.body, cells@[i]),
            forall|q: Point| in_interior(q, *snake_pit) && !body_contains(snake@.body, q)
                ==> cells@.contains(q),
    {
        let mut possible_snacks = Vec::<Point>::new();
        let mut x: u32 = 1;
        while x < snake_pit.width
            invariant
                1 <= x,
                x <= snake_pit.width || x == 1,
                possible_snacks@ == free_cells_upto(snake@.body, snake_pit.height, x as int),
                forall|i: int| 0 <= i < possible_snacks@.len()
                    ==> in_interior(#[trigger] possible_snacks@[i], *snake_pit)
                        && !body_contains(snake@.body, possible_snacks@[i]),
                forall|q: Point| 1 <= q.x < x && 1 <= q.y < snake_pit.height && !body_contains(snake@.body, q)
                    ==> possible_snacks@.contains(q),
            decreases snake_pit.width - x,
        {
            proof {
                assert(possible_snacks@ =~= free_cells_upto(snake@.body, snake_pit.height, x as int)
                    + free_cells_in_column(snake@.body, x, 1int));
            }
            let mut y: u32 = 1;
            while y < snake_pit.height
                invariant
                    1 <= x < snake_pit.width,
                    1 <= y,
                    y <= snake_pit.height || y == 1,
                    possible_snacks@ == free_cells_upto(snake@.body, snake_pit.height, x as int)
                        + free_cells_in_column(snake@.body, x, y as int),
                    forall|i: int| 0 <= i < possible_snacks@.len()
                        ==> in_interior(#[trigger] possible_snacks@[i], *snake_pit)
                            && !body_contains(snake@.body, possible_snacks@[i]),
                    forall|q: Point| 1 <= q.x < x && 1 <= q.y < snake_pit.height && !body_contains(snake@.body, q)
                        ==> possible_snacks@.contains(q),
                    forall|q: Point| q.x == x && 1 <= q.y < y && !body_contains(snake@.body, q)
                        ==> possible_snacks@.contains(q),
                decreases snake_pit.height - y,
            {
                let possible_position = Point { x, y };
                let ghost before = possible_snacks@;
                if !snake.collides_with_point(&possible_position) {
                    possible_snacks.push(possible_position);
                }
                proof {
                    assert(possible_snacks@ =~= free_cells_upto(snake@.body, snake_pit.height, x as int)
                        + free_cells_in_column(snake@.body, x, y + 1));
                    assert forall|q: Point| 1 <= q.x < x && 1 <= q.y < snake_pit.height && !body_contains(snake@.body, q)
                        implies possible_snacks@.contains(q) by {
                        assert(before.contains(q));
                        let i = choose|i: int| 0 <= i < before.len() && before[i] == q;
                        assert(possible_snacks@[i] == q);
                    };
                    assert forall|q: Point| q.x == x && 1 <= q.y < y + 1 && !body_contains(snake@.body, q)
                        implies possible_snacks@.contains(q) by {
                        if q.y < y {
                            assert(before.contains(q));
                            let i = choose|i: int| 0 <= i < before.len() && before[i] == q;
                            assert(possible_snacks@[i] == q);
                        } else {
                            assert(q == possible_position);
                            assert(possible_snacks@[possible_snacks@.len() - 1] == q);
                        }
                    };
                }
                y = y + 1;
            }
            proof {
                assert(possible_snacks@ =~= free_cells_upto(snake@.body, snake_pit.height, x + 1));
                assert forall|q: Point| 1 <= q.x < x + 1 && 1 <= q.y < snake_pit.height && !body_contains(snake@.body, q)
                    implies possible_snacks@.contains(q) by {
                };
            }
            x = x + 1;
        }
        proof {
            assert(possible_snacks@ =~= free_cells(snake@.body, *snake_pit));
        }
        possible_snacks
    }

    /// Food placement with the random draw handed in, for callers that
    /// bring their own (seeded) source of randomness: deterministically the
    /// `draw`-th cell of the x-major free-cell enumeration, or `None` when
    /// the draw is not below the number of free cells (in particular, when
    /// there is none).
    pub fn generate_snack_with_draw(snake_pit: &SnakePit, snake: &Snake, draw: usize) -> (snack: Option<Point>)
        ensures
            snack == (if draw < free_cells(snake@.body, *snake_pit).len() {
                Some(free_cells(snake@.body, *snake_pit)[draw as int])
            } else {
                None::<Point>
            }),
            snack matches Some(p) ==> in_interior(p, *snake_pit) && !body_contains(snake@.body, p),
    {
        let cells = Self::collect_free_cells(snake_pit, snake);
        if draw < cells.len() {
            Some(cells[draw])
        } else {
            None
        }
    }

    /// A food cell for the given snake and pit: some interior cell not
    /// covered by the body, chosen uniformly at random over all such cells,
    /// or `None` exactly when every interior cell is covered. The draw comes
    /// from the process-global generator; the selection it feeds is
    /// [`Self::generate_snack_with_draw`], which takes the draw as an
    /// argument and is deterministic given it.
    pub fn generate_snack(snake_pit: &SnakePit, snake: &Snake) -> (snack: Option<Point>)
        ensures
            snack is Some <==> free_cell_exists(snake@.body, *snake_pit),
            snack matches Some(p) ==> in_interior(p, *snake_pit) && !body_contains(snake@.body, p),
            snack matches Some(p) ==> free_cells(snake@.body, *snake_pit).contains(p),
    {
        let cells = Self::collect_free_cells(snake_pit, snake);
        if cells.is_empty() {
            proof {
                if free_cell_exists(snake@.body, *snake_pit) {
                    let p = choose|p: Point| in_interior(p, *snake_pit) && !body_contains(snake@.body, p);
                    assert(cells@.contains(p));
                }
            }
            None
        } else {
            proof {
                assert(in_interior(cells@[0], *snake_pit) && !body_contains(snake@.body, cells@[0]));
            }
            let draw = random_below(cells.len());
            let snack = Self::generate_snack_with_draw(snake_pit, snake, draw);
            proof {
                assert(free_cells(snake@.body, *snake_pit).contains(free_cells(snake@.body, *snake_pit)[draw as int]));
            }
            snack
        }
    }
}

} // verus!
