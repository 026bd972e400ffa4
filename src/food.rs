use crate::grid::{in_board, Position};
use crate::snake::Snake;
use vstd::prelude::*;

verus! {

/// How many random cells are tried before the board is searched in order.
pub const MAX_RANDOM_DRAWS: u32 = 64;

/// Some cell of the `width` x `height` board holds no segment of `body`.
pub open spec fn has_free_cell(body: Seq<Position>, width: int, height: int) -> bool {
    exists|p: Position| #[trigger] in_board(p, width, height) && !body.contains(p)
}

/// Relies on rand::thread_rng and rand::Rng::gen_range: a value drawn from
/// the half-open range `0..bound`, which is not empty.
#[verifier::external_body]
fn random_below(bound: i32) -> (r: i32)
    requires
        bound > 0,
    ensures
        0 <= r < bound,
{
    rand::Rng::gen_range(&mut rand::thread_rng(), 0..bound)
}

/// The first cell in row-major order that the snake leaves free, if any.
fn first_free_cell(snake: &Snake, board_width: i32, board_height: i32) -> (r: Option<Position>)
    requires
        board_width > 0,
        board_height > 0,
    ensures
        r is None <==> !has_free_cell(snake.body@, board_width as int, board_height as int),
        r matches Some(p) ==> in_board(p, board_width as int, board_height as int)
            && !snake.body@.contains(p),
{
    let ghost w = board_width as int;
    let ghost h = board_height as int;
    let mut y: i32 = 0;
    while y < board_height
        invariant
            0 <= y <= h,
            w > 0,
            w == board_width,
            h == board_height,
            forall|p: Position| #[trigger] in_board(p, w, h) && p.y < y ==> snake.body@.contains(p),
        decreases board_height - y,
    {
        let mut x: i32 = 0;
        while x < board_width
            invariant
                0 <= x <= w,
                0 <= y < h,
                w == board_width,
                h == board_height,
                forall|p: Position| #[trigger]
                    in_board(p, w, h) && (p.y < y || (p.y == y && p.x < x))
                        ==> snake.body@.contains(p),
            decreases board_width - x,
        {
            let p = Position { x, y };
            if !snake.contains(p) {
                assert(in_board(p, w, h));
                return Some(p);
            }
            x += 1;
        }
        y += 1;
    }
    None
}

/// The food: a single cell.
#[derive(Debug, Clone, Copy)]
pub struct Food {
    pub position: Position,
}

impl Food {
    /// Food lying on `position`.
    pub fn new(position: Position) -> (r: Self)
        ensures
            r.position == position,
    {
        Food { position }
    }

    /// A cell of the board that the snake does not occupy, drawn at random;
    /// `None` exactly when the snake covers the whole board. After a bounded
    /// number of draws that all hit the snake, the board is searched in order.
    pub fn try_generate_new_position(snake: &Snake, board_width: i32, board_height: i32) -> (r:
        Option<Position>)
        requires
            board_width > 0,
            board_height > 0,
        ensures
            r is None <==> !has_free_cell(snake.body@, board_width as int, board_height as int),
            r matches Some(p) ==> in_board(p, board_width as int, board_height as int)
                && !snake.body@.contains(p),
    {
        let mut draws: u32 = 0;
        while draws < MAX_RANDOM_DRAWS
            invariant
                board_width > 0,
                board_height > 0,
            decreases MAX_RANDOM_DRAWS - draws,
        {
            let p = Position { x: random_below(board_width), y: random_below(board_height) };
            if !snake.contains(p) {
                assert(in_board(p, board_width as int, board_height as int));
                return Some(p);
            }
            draws += 1;
        }
        first_free_cell(snake, board_width, board_height)
    }

    /// A cell of the board that the snake does not occupy, drawn at random.
    pub fn generate_new_position(snake: &Snake, board_width: i32, board_height: i32) -> (r:
        Position)
        requires
            board_width > 0,
            board_height > 0,
            has_free_cell(snake.body@, board_width as int, board_height as int),
        ensures
            in_board(r, board_width as int, board_height as int),
            !snake.body@.contains(r),
    {
        match Food::try_generate_new_position(snake, board_width, board_height) {
            Some(p) => p,
            None => {
                proof {
                    assert(false);
                }
                Position { x: 0, y: 0 }
            },
        }
    }

    /// Whether the snake's head has reached the food.
    pub fn is_eaten_by(&self, snake: &Snake) -> (r: bool)
        requires
            snake.wf(),
        ensures
            r == (snake.body@[0] == self.position),
    {
        snake.head() == self.position
    }

    /// The cell the food lies on.
    pub fn position(&self) -> (r: Position)
        ensures
            r == self.position,
    {
        self.position
    }
}

} // verus!
