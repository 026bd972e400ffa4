use vstd::arithmetic::div_mod::{lemma_fundamental_div_mod, lemma_fundamental_div_mod_converse};
use vstd::prelude::*;

verus! {

/// A cell of the board. Validity is relative to a board size.
#[derive(Debug, Clone, Copy, PartialEq, Eq, Structural)]
pub struct Position {
    pub x: i32,
    pub y: i32,
}

/// One of the four headings of the snake.
#[derive(Debug, Clone, Copy, PartialEq, Eq, Structural)]
pub enum Direction {
    Up,
    Down,
    Left,
    Right,
}

impl Direction {
    /// Horizontal component of one step in this direction.
    pub open spec fn dx(self) -> int {
        match self {
            Direction::Left => -1,
            Direction::Right => 1,
            _ => 0,
        }
    }

    /// Vertical component of one step in this direction (rows grow downwards).
    pub open spec fn dy(self) -> int {
        match self {
            Direction::Up => -1,
            Direction::Down => 1,
            _ => 0,
        }
    }

    /// `other` points exactly the other way.
    pub open spec fn is_opposite(self, other: Direction) -> bool {
        match (self, other) {
            (Direction::Up, Direction::Down) => true,
            (Direction::Down, Direction::Up) => true,
            (Direction::Left, Direction::Right) => true,
            (Direction::Right, Direction::Left) => true,
            _ => false,
        }
    }
}

/// `p` lies on a `width` x `height` board.
pub open spec fn in_board(p: Position, width: int, height: int) -> bool {
    0 <= p.x < width && 0 <= p.y < height
}

/// The cell one step from `p` in direction `d`, each coordinate taken modulo
/// the board's size on that axis.
pub open spec fn step(p: Position, d: Direction, width: int, height: int) -> Position {
    Position { x: ((p.x + d.dx()) % width) as i32, y: ((p.y + d.dy()) % height) as i32 }
}

/// `v + delta` reduced modulo `n` into `[0, n)`.
pub(crate) fn wrap(v: i32, delta: i32, n: i32) -> (r: i32)
    requires
        n > 0,
        -1 <= delta <= 1,
    ensures
        r == (v + delta) % (n as int),
        0 <= r < n,
{
    let s: i64 = v as i64 + delta as i64;
    let m: u64 = n as u64;
    if s >= 0 {
        ((s as u64) % m) as i32
    } else {
        let a: u64 = (-s) as u64;
        let q: u64 = a % m;
        proof {
            let k = a as int / m as int;
            lemma_fundamental_div_mod(a as int, m as int);
            if q == 0 {
                assert(s as int == (-k) * (m as int) + 0) by (nonlinear_arith)
                    requires
                        a as int == m as int * k + q,
                        q == 0,
                        s as int == -(a as int),
                ;
                lemma_fundamental_div_mod_converse(s as int, m as int, -k, 0);
            } else {
                assert(s as int == (-k - 1) * (m as int) + (m - q)) by (nonlinear_arith)
                    requires
                        a as int == m as int * k + q,
                        s as int == -(a as int),
                ;
                lemma_fundamental_div_mod_converse(s as int, m as int, -k - 1, m - q);
            }
        }
        if q == 0 {
            0
        } else {
            (m - q) as i32
        }
    }
}

} // verus!
