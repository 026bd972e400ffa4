use crate::grid::{in_board, step, wrap, Direction, Position};
use vstd::arithmetic::div_mod::{lemma_fundamental_div_mod, lemma_mod_multiples_basic, lemma_small_mod};
use vstd::prelude::*;

verus! {

/// The body that `Snake::new` lays out: `len` cells in one row, the head at
/// `start` and each further segment one column to the left of the previous one.
pub open spec fn initial_body(start: Position, len: nat) -> Seq<Position> {
    Seq::new(len, |i: int| Position { x: (start.x - i) as i32, y: start.y })
}

/// The body after one move: a new head one step ahead of the old one, and the
/// old body behind it, without its last segment unless growth is pending.
pub open spec fn moved_body(
    body: Seq<Position>,
    d: Direction,
    growing: bool,
    width: int,
    height: int,
) -> Seq<Position> {
    let head = step(body[0], d, width, height);
    if growing {
        seq![head] + body
    } else {
        seq![head] + body.drop_last()
    }
}

/// The head shares its cell with some other segment.
pub open spec fn collides(body: Seq<Position>) -> bool {
    exists|i: int| 1 <= i < body.len() && #[trigger] body[i] == body[0]
}

/// `a` is one step from `b` on a `width` x `height` board whose edges wrap
/// around: equal on one axis and one apart on the other, modulo the board.
pub open spec fn one_step_apart(a: Position, b: Position, width: int, height: int) -> bool {
    ||| (a.x - b.x) % width == 0 && ((a.y - b.y - 1) % height == 0 || (a.y - b.y + 1) % height
        == 0)
    ||| (a.y - b.y) % height == 0 && ((a.x - b.x - 1) % width == 0 || (a.x - b.x + 1) % width
        == 0)
}

/// Each segment is one step from the next one.
pub open spec fn connected(body: Seq<Position>, width: int, height: int) -> bool {
    forall|i: int|
        0 <= i < body.len() - 1 ==> #[trigger] one_step_apart(body[i], body[i + 1], width, height)
}

/// The snake: its cells head first, its heading, and whether the next move
/// keeps the tail.
#[derive(Debug, Clone)]
pub struct Snake {
    pub body: Vec<Position>,
    pub direction: Direction,
    pub growing: bool,
}

impl Snake {
    /// A snake always has a head.
    pub open spec fn wf(&self) -> bool {
        self.body@.len() >= 1
    }

    /// A snake of `initial_length` segments with its head at `start_pos`,
    /// facing right.
    pub fn new(start_pos: Position, initial_length: usize) -> (r: Self)
        requires
            initial_length >= 1,
            start_pos.x - (initial_length - 1) >= i32::MIN,
        ensures
            r.wf(),
            r.body@ == initial_body(start_pos, initial_length as nat),
            r.direction == Direction::Right,
            !r.growing,
    {
        let mut body: Vec<Position> = Vec::with_capacity(initial_length);
        let mut i: usize = 0;
        while i < initial_length
            invariant
                i <= initial_length,
                start_pos.x - (initial_length - 1) >= i32::MIN,
                body@ == initial_body(start_pos, i as nat),
            decreases initial_length - i,
        {
            let x: i64 = start_pos.x as i64 - i as i64;
            body.push(Position { x: x as i32, y: start_pos.y });
            assert(body@ =~= initial_body(start_pos, (i + 1) as nat));
            i += 1;
        }
        Snake { body, direction: Direction::Right, growing: false }
    }

    /// The first segment.
    pub fn head(&self) -> (r: Position)
        requires
            self.wf(),
        ensures
            r == self.body@[0],
    {
        self.body[0]
    }

    /// The last segment.
    pub fn tail(&self) -> (r: Position)
        requires
            self.wf(),
        ensures
            r == self.body@.last(),
    {
        self.body[self.body.len() - 1]
    }

    /// Whether some segment lies on `pos`.
    pub fn contains(&self, pos: Position) -> (r: bool)
        ensures
            r == self.body@.contains(pos),
    {
        let mut i: usize = 0;
        while i < self.body.len()
            invariant
                i <= self.body@.len(),
                forall|j: int| 0 <= j < i ==> self.body@[j] != pos,
            decreases self.body.len() - i,
        {
            if self.body[i] == pos {
                return true;
            }
            i += 1;
        }
        false
    }

    /// Takes `new_direction` as the heading unless it would reverse the snake.
    pub fn change_direction(&mut self, new_direction: Direction)
        ensures
            final(self).direction == (if old(self).direction.is_opposite(new_direction) {
                old(self).direction
            } else {
                new_direction
            }),
            final(self).body@ == old(self).body@,
            final(self).growing == old(self).growing,
    {
        let can_change = match (self.direction, new_direction) {
            (Direction::Up, Direction::Down) => false,
            (Direction::Down, Direction::Up) => false,
            (Direction::Left, Direction::Right) => false,
            (Direction::Right, Direction::Left) => false,
            _ => true,
        };
        if can_change {
            self.direction = new_direction;
        }
    }

    /// Moves one cell ahead on a `board_width` x `board_height` board whose
    /// edges wrap around; the tail follows unless growth is pending.
    pub fn move_forward(&mut self, board_width: i32, board_height: i32)
        requires
            old(self).wf(),
            board_width > 0,
            board_height > 0,
        ensures
            final(self).wf(),
            final(self).body@ == moved_body(
                old(self).body@,
                old(self).direction,
                old(self).growing,
                board_width as int,
                board_height as int,
            ),
            final(self).direction == old(self).direction,
            !final(self).growing,
            in_board(final(self).body@[0], board_width as int, board_height as int),
            final(self).body@[0].x == (old(self).body@[0].x + old(self).direction.dx()) % (
            board_width as int),
            final(self).body@[0].y == (old(self).body@[0].y + old(self).direction.dy()) % (
            board_height as int),
    {
        let head = self.head();
        let (dx, dy): (i32, i32) = match self.direction {
            Direction::Up => (0, -1),
            Direction::Down => (0, 1),
            Direction::Left => (-1, 0),
            Direction::Right => (1, 0),
        };
        let new_head = Position { x: wrap(head.x, dx, board_width), y: wrap(head.y, dy, board_height) };
        assert(new_head == step(head, self.direction, board_width as int, board_height as int));
        let ghost before = self.body@;
        self.body.insert(0, new_head);
        if !self.growing {
            self.body.pop();
            assert(self.body@ =~= seq![new_head] + before.drop_last());
        } else {
            self.growing = false;
            assert(self.body@ =~= seq![new_head] + before);
        }
    }

    /// Whether the head lies on another segment.
    pub fn self_collision(&self) -> (r: bool)
        requires
            self.wf(),
        ensures
            r == collides(self.body@),
    {
        let head = self.head();
        let mut i: usize = 1;
        while i < self.body.len()
            invariant
                1 <= i <= self.body@.len(),
                head == self.body@[0],
                forall|j: int| 1 <= j < i ==> self.body@[j] != head,
            decreases self.body.len() - i,
        {
            if self.body[i] == head {
                return true;
            }
            i += 1;
        }
        false
    }

    /// Keeps the tail on the next move.
    pub fn grow(&mut self)
        ensures
            final(self).growing,
            final(self).body@ == old(self).body@,
            final(self).direction == old(self).direction,
    {
        self.growing = true;
    }

    /// The number of segments.
    pub fn length(&self) -> (r: usize)
        ensures
            r == self.body@.len(),
    {
        self.body.len()
    }
}

/// A move after `grow` adds exactly one segment; a move with no growth
/// pending keeps the length.
pub proof fn lemma_growth_adds_one_segment(s: Snake, width: int, height: int)
    requires
        s.wf(),
    ensures
        moved_body(s.body@, s.direction, true, width, height).len() == s.body@.len() + 1,
        !s.growing ==> moved_body(s.body@, s.direction, s.growing, width, height).len()
            == s.body@.len(),
{
}

/// A new snake does not run into itself.
pub proof fn lemma_new_snake_does_not_collide(start: Position, len: nat)
    requires
        len >= 1,
        start.x - (len - 1) >= i32::MIN,
    ensures
        !collides(initial_body(start, len)),
{
    let body = initial_body(start, len);
    assert forall|i: int| 1 <= i < body.len() implies #[trigger] body[i] != body[0] by {
        assert(body[i].x == start.x - i);
    }
}

/// A move whose new head lands on no cell of the old body does not make the
/// snake run into itself.
pub proof fn lemma_clear_move_does_not_collide(
    body: Seq<Position>,
    d: Direction,
    growing: bool,
    width: int,
    height: int,
)
    requires
        body.len() >= 1,
        !body.contains(step(body[0], d, width, height)),
    ensures
        !collides(moved_body(body, d, growing, width, height)),
{
    let moved = moved_body(body, d, growing, width, height);
    assert forall|i: int| 1 <= i < moved.len() implies #[trigger] moved[i] != moved[0] by {
        assert(moved[i] == body[i - 1]);
    }
}

/// `v % m` differs from `v` by a multiple of `m`.
proof fn lemma_mod_congruent(v: int, m: int)
    requires
        m > 0,
    ensures
        (v % m - v) % m == 0,
{
    lemma_fundamental_div_mod(v, m);
    let q = v / m;
    assert(v % m - v == (-q) * m) by (nonlinear_arith)
        requires
            v == m * q + v % m,
    ;
    lemma_mod_multiples_basic(-q, m);
}

/// A step lands one step away from where it started.
proof fn lemma_step_is_one_step(p: Position, d: Direction, width: int, height: int)
    requires
        0 < width <= i32::MAX,
        0 < height <= i32::MAX,
    ensures
        one_step_apart(step(p, d, width, height), p, width, height),
{
    lemma_mod_congruent(p.x + d.dx(), width);
    lemma_mod_congruent(p.y + d.dy(), height);
}

/// The first snake is connected on every board.
pub proof fn lemma_initial_body_connected(start: Position, len: nat, width: int, height: int)
    requires
        len >= 1,
        start.x - (len - 1) >= i32::MIN,
        width > 0,
        height > 0,
    ensures
        connected(initial_body(start, len), width, height),
{
    let body = initial_body(start, len);
    lemma_small_mod(0, width as nat);
    lemma_small_mod(0, height as nat);
    assert forall|i: int| 0 <= i < body.len() - 1 implies #[trigger] one_step_apart(
        body[i],
        body[i + 1],
        width,
        height,
    ) by {
        assert(body[i].x - body[i + 1].x - 1 == 0);
        assert(body[i].y - body[i + 1].y == 0);
    }
}

/// A move keeps the body connected.
pub proof fn lemma_move_keeps_connected(
    body: Seq<Position>,
    d: Direction,
    growing: bool,
    width: int,
    height: int,
)
    requires
        body.len() >= 1,
        connected(body, width, height),
        0 < width <= i32::MAX,
        0 < height <= i32::MAX,
    ensures
        connected(moved_body(body, d, growing, width, height), width, height),
{
    let moved = moved_body(body, d, growing, width, height);
    lemma_step_is_one_step(body[0], d, width, height);
    assert forall|i: int| 0 <= i < moved.len() - 1 implies #[trigger] one_step_apart(
        moved[i],
        moved[i + 1],
        width,
        height,
    ) by {
        if i > 0 {
            let j = i - 1;
            assert(one_step_apart(body[j], body[j + 1], width, height));
            assert(moved[i] == body[j]);
            assert(moved[i + 1] == body[j + 1]);
        }
    }
}

} // verus!
