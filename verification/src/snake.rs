//! The snake: an ordered body of grid cells (head last, tail first), a
//! current heading, and a one-tick growth flag.

use vstd::prelude::*;
use crate::geometry::{Point, Direction, step, step_unclamped, adjacent};
use crate::pit::SnakePit;

verus! {

/// The mathematical value of a [`Snake`]: its body as a sequence of cells
/// (head last), its heading, and whether the next move grows the body.
#[verifier::ext_equal]
pub ghost struct SnakeModel {
    pub body: Seq<Point>,
    pub direction: Direction,
    pub growing: bool,
}

/// True iff `p` occurs somewhere in `body`.
pub open spec fn body_contains(body: Seq<Point>, p: Point) -> bool {
    exists|i: int| 0 <= i < body.len() && body[i] == p
}

/// True iff the head (last cell) coincides with some earlier body cell.
pub open spec fn self_colliding(body: Seq<Point>) -> bool
    recommends
        body.len() >= 1,
{
    body_contains(body.drop_last(), body.last())
}

/// True iff every pair of consecutive body cells is Manhattan-adjacent.
pub open spec fn body_linked(body: Seq<Point>) -> bool {
    forall|i: int| 0 <= i < body.len() - 1 ==> adjacent(#[trigger] body[i], body[i + 1])
}

/// The body a snake is created with: `length` consecutive cells starting at
/// `origin`, increasing in x, all on the same row.
pub open spec fn initial_body(length: u32, origin: Point) -> Seq<Point> {
    Seq::new(length as nat, |i: int| (Point { x: (origin.x + i) as u32, y: origin.y }))
}

/// The body after one move: the cell one step ahead of the head is appended,
/// and unless the move grows the snake, the tail cell is dropped. Growth and
/// movement share this one operation.
pub open spec fn moved_body(body: Seq<Point>, d: Direction, grow: bool) -> Seq<Point>
    recommends
        body.len() >= 1,
{
    let pushed = body.push(step(body.last(), d));
    if grow {
        pushed
    } else {
        pushed.subrange(1, pushed.len() as int)
    }
}

impl SnakeModel {
    /// A snake is well formed when its body is non-empty.
    pub open spec fn wf(self) -> bool {
        self.body.len() >= 1
    }

    /// The head cell: the most recently added body cell.
    pub open spec fn head(self) -> Point
        recommends
            self.wf(),
    {
        self.body.last()
    }

    /// The same snake with its heading set to `d`.
    pub open spec fn with_direction(self, d: Direction) -> SnakeModel {
        SnakeModel { direction: d, ..self }
    }

    /// The snake after one move: the body shifts (or grows) one step along
    /// the current heading and the growth flag is cleared.
    pub open spec fn moved(self) -> SnakeModel
        recommends
            self.wf(),
    {
        SnakeModel { body: moved_body(self.body, self.direction, self.growing), direction: self.direction, growing: false }
    }
}

/// Basic shape of a moved body: its length, its head, and where each cell
/// comes from.
pub proof fn lemma_moved_body_facts(body: Seq<Point>, d: Direction, grow: bool)
    requires
        body.len() >= 1,
    ensures
        grow ==> moved_body(body, d, grow).len() == body.len() + 1,
        !grow ==> moved_body(body, d, grow).len() == body.len(),
        moved_body(body, d, grow).last() == step(body.last(), d),
        forall|i: int| 0 <= i < moved_body(body, d, grow).len() - 1 ==> moved_body(body, d, grow)[i] == (if grow { body[i] } else { body[i + 1] }),
{
    let pushed = body.push(step(body.last(), d));
    if grow {
        assert(moved_body(body, d, grow).last() == pushed[pushed.len() - 1]);
    } else {
        let moved = pushed.subrange(1, pushed.len() as int);
        assert(moved.last() == pushed[pushed.len() - 1]);
    }
}

/// Setting the heading is idempotent: a second call with the same direction
/// has no further effect.
pub proof fn lemma_change_direction_idempotent(m: SnakeModel, d: Direction)
    ensures
        m.with_direction(d).with_direction(d) == m.with_direction(d),
{
}

/// The body a snake is created with is linked: consecutive cells are
/// Manhattan-adjacent.
pub proof fn lemma_initial_body_linked(length: u32, origin: Point)
    requires
        origin.x + length <= u32::MAX + 1,
    ensures
        body_linked(initial_body(length, origin)),
{
}

/// A move whose step does not clamp keeps the body linked: consecutive body
/// cells remain Manhattan-adjacent, whether or not the move grows the body.
pub proof fn lemma_move_preserves_adjacency(body: Seq<Point>, d: Direction, grow: bool)
    requires
        body.len() >= 1,
        body_linked(body),
        step_unclamped(body.last(), d),
    ensures
        body_linked(moved_body(body, d, grow)),
{
    let pushed = body.push(step(body.last(), d));
    crate::geometry::lemma_step_unclamped_adjacent(body.last(), d);
    assert(adjacent(pushed[pushed.len() - 2], pushed[pushed.len() - 1]));
    assert(body_linked(pushed));
    if !grow {
        let moved = pushed.subrange(1, pushed.len() as int);
        assert(forall|i: int| 0 <= i < moved.len() - 1 ==> adjacent(#[trigger] moved[i], moved[i + 1])) by {
            assert(forall|i: int| 0 <= i < moved.len() ==> moved[i] == pushed[i + 1]);
        }
    }
}

/// A head that is strictly inside the pit can step in any direction without
/// the saturating arithmetic clamping.
pub proof fn lemma_in_bounds_step_unclamped(p: Point, pit: SnakePit, d: Direction)
    requires
        !crate::pit::out_of_bounds(p, pit),
    ensures
        step_unclamped(p, d),
{
}

/// The adjacency law for a whole tick: a move made while the head is still
/// inside the pit keeps consecutive body cells Manhattan-adjacent — no
/// segment teleports, whether or not the move grows the body.
pub proof fn lemma_tick_preserves_adjacency(body: Seq<Point>, d: Direction, grow: bool, pit: SnakePit)
    requires
        body.len() >= 1,
        body_linked(body),
        !crate::pit::out_of_bounds(body.last(), pit),
    ensures
        body_linked(moved_body(body, d, grow)),
{
    lemma_in_bounds_step_unclamped(body.last(), pit, d);
    lemma_move_preserves_adjacency(body, d, grow);
}

/// A snake: the ordered body (head last, tail first), the current heading,
/// and whether the next move lengthens the body.
pub struct Snake {
    pub body: Vec<Point>,
    pub direction: Direction,
    pub longer_on_next_move: bool,
}

impl View for Snake {
    type V = SnakeModel;

    open spec fn view(&self) -> SnakeModel {
        SnakeModel { body: self.body@, direction: self.direction, growing: self.longer_on_next_move }
    }
}

impl Snake {
    /// A new snake of `length` cells starting at `origin` and extending to
    /// the right, heading right, with no growth pending.
    pub fn new(length: u32, origin: Point) -> (snake: Snake)
        requires
            length >= 1,
            origin.x + length <= u32::MAX + 1,
        ensures
            snake@.body == initial_body(length, origin),
            snake@.direction == Direction::Right,
            !snake@.growing,
            snake@.wf(),
    {
        let mut body = Vec::<Point>::new();
        let mut x: u32 = 0;
        while x < length
            invariant
                x <= length,
                origin.x + length <= u32::MAX + 1,
                body@.len() == x as nat,
                forall|i: int| 0 <= i < x ==> body@[i] == (Point { x: (origin.x + i) as u32, y: origin.y }),
            decreases length - x,
        {
            body.push(Point { x: origin.x + x, y: origin.y });
            x = x + 1;
        }
        proof {
            assert(body@ =~= initial_body(length, origin));
        }
        Snake { body, direction: Direction::Right, longer_on_next_move: false }
    }

    /// Move the snake one step along its heading: the cell one saturating
    /// step ahead of the head is appended; unless growth was pending, the
    /// tail cell is removed; the growth flag is cleared either way. The body
    /// length is unchanged by a plain move and grows by exactly one when
    /// growth was pending.
    pub fn move_to_next_position(&mut self)
        requires
            old(self)@.wf(),
        ensures
            final(self)@ == old(self)@.moved(),
            final(self)@.wf(),
            old(self)@.growing ==> final(self)@.body.len() == old(self)@.body.len() + 1,
            !old(self)@.growing ==> final(self)@.body.len() == old(self)@.body.len(),
    {
        let head = self.body[self.body.len() - 1];
        let updated_head = match self.direction {
            Direction::Up => Point { x: head.x, y: head.y.saturating_sub(1) },
            Direction::Down => Point { x: head.x, y: head.y.saturating_add(1) },
            Direction::Left => Point { x: head.x.saturating_sub(1), y: head.y },
            Direction::Right => Point { x: head.x.saturating_add(1), y: head.y },
        };
        self.body.push(updated_head);
        if !self.longer_on_next_move {
            self.body.remove(0);
        }
        self.longer_on_next_move = false;
        proof {
            assert(self@.body =~= moved_body(old(self)@.body, old(self)@.direction, old(self)@.growing));
            assert(self@ =~= old(self)@.moved());
        }
    }

    /// Set the heading; it takes effect on the next move only. Reversing
    /// into the body is not prevented here: that case is caught by the
    /// self-collision check after the move.
    pub fn change_direction(&mut self, direction: Direction)
        ensures
            final(self)@ == old(self)@.with_direction(direction),
    {
        self.direction = direction;
    }

    /// The body, tail first and head last.
    pub fn get_body(&self) -> (body: &Vec<Point>)
        ensures
            body@ == self@.body,
    {
        &self.body
    }

    /// Defer one growth to the next move: that move keeps the tail in place
    /// and so lengthens the body by one.
    pub fn make_longer(&mut self)
        ensures
            final(self)@.body == old(self)@.body,
            final(self)@.direction == old(self)@.direction,
            final(self)@.growing,
    {
        self.longer_on_next_move = true;
    }

    /// True iff the head sits exactly on `snack_position`.
    pub fn is_eating_snack(&self, snack_position: &Point) -> (eating: bool)
        requires
            self@.wf(),
        ensures
            eating <==> self@.head() == *snack_position,
    {
        let head = self.body[self.body.len() - 1];
        head == *snack_position
    }

    /// True iff the head coincides with any other body cell. Meaningful
    /// right after a move.
    pub fn is_eating_itself(&self) -> (eating: bool)
        requires
            self@.wf(),
        ensures
            eating <==> self_colliding(self@.body),
    {
        let head = self.body[self.body.len() - 1];
        let mut i: usize = 0;
        while i < self.body.len() - 1
            invariant
                self@.wf(),
                i <= self@.body.len() - 1,
                head == self@.head(),
                forall|j: int| 0 <= j < i ==> self@.body[j] != self@.head(),
            decreases self@.body.len() - 1 - i,
        {
            if self.body[i] == head {
                proof {
                    assert(self@.body.drop_last()[i as int] == self@.head());
                }
                return true;
            }
            i = i + 1;
        }
        proof {
            assert(forall|j: int| 0 <= j < self@.body.drop_last().len() ==> self@.body.drop_last()[j] != self@.head());
        }
        false
    }

    /// True iff `point` lies on the body. Used to validate food placement
    /// candidates.
    pub fn collides_with_point(&self, point: &Point) -> (collides: bool)
        ensures
            collides <==> body_contains(self@.body, *point),
    {
        let mut i: usize = 0;
        while i < self.body.len()
            invariant
                i <= self@.body.len(),
                forall|j: int| 0 <= j < i ==> self@.body[j] != *point,
            decreases self@.body.len() - i,
        {
            if self.body[i] == *point {
                return true;
            }
            i = i + 1;
        }
        false
    }

    /// True iff the head is on or beyond the pit's wall ring: at column or
    /// row 0, or at or past `width`/`height`. The playable interior is
    /// strictly `(0, width) x (0, height)`: the outer ring is wall.
    pub fn collides_with_bounds(&self, snake_pit: &SnakePit) -> (collides: bool)
        requires
            self@.wf(),
        ensures
            collides <==> crate::pit::out_of_bounds(self@.head(), *snake_pit),
    {
        let head = self.body[self.body.len() - 1];
        head.x == 0 || head.y == 0 || head.x >= snake_pit.width || head.y >= snake_pit.height
    }
}

} // verus!
