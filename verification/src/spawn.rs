//! Food placement: the position-validity check and the sampling searches
//! for single-cell food and for the 2x2 big food.
//!
//! Single food is drawn uniformly from the interior cells the snake does
//! not occupy, which is exactly the distribution of rejection sampling but
//! always terminates. Big food keeps the bounded-retry policy: up to a
//! fixed number of fresh samples, accepting the last candidate (flagged
//! invalid) when none was free.

use vstd::prelude::*;
use crate::snake::Snake;
use crate::snake::SnakeView;

verus! {

/// Upper bound on board dimensions in cells; keeps every coordinate and
/// cell-count computation far from the integer limits.
pub const MAX_BOARD: i32 = 10000;

/// Number of fresh samples the big-food search may draw before it gives up
/// and accepts the last candidate.
pub const BIG_FOOD_ATTEMPTS: u32 = 100;

/// Whether `(x, y)` lies strictly inside the border walls of a
/// `width x height` board.
pub open spec fn in_interior(x: int, y: int, width: int, height: int) -> bool {
    0 < x < width - 1 && 0 < y < height - 1
}

/// Whether a 2x2 block with top-left corner `(x, y)` fits inside the
/// interior of a `width x height` board.
pub open spec fn big_block_in_interior(x: int, y: int, width: int, height: int) -> bool {
    1 <= x <= width - 3 && 1 <= y <= height - 3
}

/// Whether none of the four cells of a 2x2 block with top-left corner
/// `(x, y)` is occupied by the snake (for corners where `x + 1` and
/// `y + 1` fit in `i32`).
pub open spec fn big_block_free(s: SnakeView, x: i32, y: i32) -> bool {
    &&& !s.body.contains((x, y))
    &&& !s.body.contains(((x + 1) as i32, y))
    &&& !s.body.contains((x, (y + 1) as i32))
    &&& !s.body.contains(((x + 1) as i32, (y + 1) as i32))
}

/// Relies on rand: `random_range` over `lo..hi` on `i32` returns a value
/// of that non-empty range.
#[verifier::external_body]
fn random_in_range(lo: i32, hi: i32) -> (r: i32)
    requires
        lo < hi,
    ensures
        lo <= r < hi,
{
    rand::RngExt::random_range(&mut rand::rng(), lo..hi)
}

/// Relies on rand: `random_range` over `0..bound` on `usize` returns an
/// index below the non-zero bound.
#[verifier::external_body]
fn random_index(bound: usize) -> (r: usize)
    requires
        bound > 0,
    ensures
        r < bound,
{
    rand::RngExt::random_range(&mut rand::rng(), 0..bound)
}

/// Picks a cell for single-cell food: uniformly one of the interior cells
/// the snake does not occupy, or `None` when the snake covers the whole
/// interior.
pub fn spawn_food(snake: &Snake, width: i32, height: i32) -> (r: Option<(i32, i32)>)
    requires
        4 <= width <= MAX_BOARD,
        4 <= height <= MAX_BOARD,
    ensures
        match r {
            Option::Some(p) => in_interior(p.0 as int, p.1 as int, width as int, height as int)
                && !snake@.body.contains(p),
            Option::None => forall|x: i32, y: i32|
                in_interior(x as int, y as int, width as int, height as int)
                    ==> snake@.body.contains((x, y)),
        },
{
    let mut free: Vec<(i32, i32)> = Vec::new();
    let mut x: i32 = 1;
    while x < width - 1
        invariant
            4 <= width <= MAX_BOARD,
            4 <= height <= MAX_BOARD,
            1 <= x <= width - 1,
            forall|k: int| 0 <= k < free@.len() ==> {
                let p = #[trigger] free@[k];
                in_interior(p.0 as int, p.1 as int, width as int, height as int)
                    && !snake@.body.contains(p)
            },
            forall|cx: i32, cy: i32|
                1 <= cx < x && in_interior(cx as int, cy as int, width as int, height as int)
                    && !snake@.body.contains((cx, cy)) ==> free@.contains((cx, cy)),
        decreases width - x,
    {
        let mut y: i32 = 1;
        while y < height - 1
            invariant
                4 <= width <= MAX_BOARD,
                4 <= height <= MAX_BOARD,
                1 <= x < width - 1,
                1 <= y <= height - 1,
                forall|k: int| 0 <= k < free@.len() ==> {
                    let p = #[trigger] free@[k];
                    in_interior(p.0 as int, p.1 as int, width as int, height as int)
                        && !snake@.body.contains(p)
                },
                forall|cx: i32, cy: i32|
                    1 <= cx < x && in_interior(cx as int, cy as int, width as int, height as int)
                        && !snake@.body.contains((cx, cy)) ==> free@.contains((cx, cy)),
                forall|cy: i32|
                    1 <= cy < y && in_interior(x as int, cy as int, width as int, height as int)
                        && !snake@.body.contains((x, cy)) ==> free@.contains((x, cy)),
            decreases height - y,
        {
            if !snake.overlap_tail(x, y) {
                let ghost before = free@;
                free.push((x, y));
                proof {
                    assert(free@[free@.len() - 1] == (x, y));
                    assert(free@.contains((x, y)));
                    assert forall|q: (i32, i32)| before.contains(q) implies free@.contains(
                        q,
                    ) by {
                        let k = choose|k: int| 0 <= k < before.len() && before[k] == q;
                        assert(free@[k] == q);
                    }
                }
            }
            y += 1;
        }
        x += 1;
    }
    if free.len() == 0 {
        proof {
            assert forall|cx: i32, cy: i32|
                in_interior(cx as int, cy as int, width as int, height as int) implies snake@.body.contains(
                (cx, cy),
            ) by {
                if !snake@.body.contains((cx, cy)) {
                    assert(free@.contains((cx, cy)));
                }
            }
        }
        Option::None
    } else {
        let i = random_index(free.len());
        let p = free[i];
        proof {
            assert(free@.contains(p));
            let k = choose|k: int| 0 <= k < free@.len() && free@[k] == p;
        }
        Option::Some(p)
    }
}

/// Whether the 2x2 block at `(x, y)` avoids every snake segment, checked
/// cell by cell.
fn big_block_is_free(snake: &Snake, x: i32, y: i32) -> (b: bool)
    requires
        i32::MIN < x < i32::MAX,
        i32::MIN < y < i32::MAX,
    ensures
        b == big_block_free(snake@, x, y),
{
    !snake.overlap_tail(x, y) && !snake.overlap_tail(x + 1, y) && !snake.overlap_tail(x, y + 1)
        && !snake.overlap_tail(x + 1, y + 1)
}

/// Picks a corner for the 2x2 big food: samples corners that keep the
/// block inside the interior, retries a bounded number of times while the
/// block overlaps the snake, and accepts the last candidate otherwise.
/// The flag reports whether the returned block was found free; when the
/// attempt budget ran out the (possibly overlapping) last sample is
/// returned with the flag down.
pub fn spawn_big_food(snake: &Snake, width: i32, height: i32) -> (r: ((i32, i32), bool))
    requires
        4 <= width <= MAX_BOARD,
        4 <= height <= MAX_BOARD,
    ensures
        big_block_in_interior(r.0.0 as int, r.0.1 as int, width as int, height as int),
        r.1 ==> big_block_free(snake@, r.0.0, r.0.1),
{
    let mut x = random_in_range(1, width - 2);
    let mut y = random_in_range(1, height - 2);
    let mut valid = big_block_is_free(snake, x, y);
    let mut attempts: u32 = 0;
    while !valid && attempts < BIG_FOOD_ATTEMPTS
        invariant
            4 <= width <= MAX_BOARD,
            4 <= height <= MAX_BOARD,
            1 <= x <= width - 3,
            1 <= y <= height - 3,
            valid ==> big_block_free(snake@, x, y),
            attempts <= BIG_FOOD_ATTEMPTS,
        decreases BIG_FOOD_ATTEMPTS - attempts,
    {
        x = random_in_range(1, width - 2);
        y = random_in_range(1, height - 2);
        attempts += 1;
        if attempts < BIG_FOOD_ATTEMPTS {
            valid = big_block_is_free(snake, x, y);
        }
    }
    ((x, y), valid)
}

} // verus!
