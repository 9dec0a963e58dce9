//! The snake model: an ordered chain of grid cells with a heading and a
//! queued-growth counter. The head is at index 0, the tail at the last
//! index. Movement prepends a new head and pops the tail unless growth is
//! pending.

use vstd::prelude::*;

verus! {

/// One of the four headings of the snake.
#[derive(Clone, Copy, PartialEq, Eq, Structural, Debug)]
pub enum Direction {
    Up,
    Down,
    Left,
    Right,
}

impl Direction {
    /// The heading that points the opposite way.
    pub open spec fn spec_opposite(self) -> Direction {
        match self {
            Direction::Up => Direction::Down,
            Direction::Down => Direction::Up,
            Direction::Left => Direction::Right,
            Direction::Right => Direction::Left,
        }
    }

    /// Returns the opposite heading (Up and Down swap, Left and Right swap).
    pub fn opposite(&self) -> (r: Direction)
        ensures
            r == self.spec_opposite(),
    {
        match self {
            Direction::Up => Direction::Down,
            Direction::Down => Direction::Up,
            Direction::Left => Direction::Right,
            Direction::Right => Direction::Left,
        }
    }
}

/// Taking the opposite twice yields the original heading, for every heading.
pub proof fn lemma_opposite_involutive(d: Direction)
    ensures
        d.spec_opposite().spec_opposite() == d,
{
}

/// The mathematical content of a snake: its cells from head to tail, its
/// heading, and how many growth units are queued.
pub struct SnakeView {
    pub body: Seq<(i32, i32)>,
    pub dir: Direction,
    pub pending_growth: nat,
}

/// The heading a movement step commits to: the requested one if a request
/// was made, otherwise the current heading.
pub open spec fn effective_dir(cur: Direction, requested: Option<Direction>) -> Direction {
    match requested {
        Option::Some(d) => d,
        Option::None => cur,
    }
}

/// The cell one step from `p` in direction `d`, as unbounded integers.
pub open spec fn spec_next_pos(p: (i32, i32), d: Direction) -> (int, int) {
    match d {
        Direction::Up => (p.0 as int, p.1 - 1),
        Direction::Down => (p.0 as int, p.1 + 1),
        Direction::Left => (p.0 - 1, p.1 as int),
        Direction::Right => (p.0 + 1, p.1 as int),
    }
}

/// Whether the cell one step ahead stays within the `i32` range, so that a
/// movement computation cannot overflow.
pub open spec fn next_pos_fits(s: SnakeView, requested: Option<Direction>) -> bool {
    let np = spec_next_pos(s.body[0], effective_dir(s.dir, requested));
    i32::MIN <= np.0 <= i32::MAX && i32::MIN <= np.1 <= i32::MAX
}

/// The cell the head would move to, as an `i32` pair (meaningful when
/// `next_pos_fits` holds).
pub open spec fn spec_next_head(s: SnakeView, requested: Option<Direction>) -> (i32, i32) {
    let np = spec_next_pos(s.body[0], effective_dir(s.dir, requested));
    (np.0 as i32, np.1 as i32)
}

/// The snake: an ordered segment chain, a heading, and queued growth.
pub struct Snake {
    body: Vec<(i32, i32)>,
    dir: Direction,
    pending_growth: u64,
}

impl View for Snake {
    type V = SnakeView;

    closed spec fn view(&self) -> SnakeView {
        SnakeView { body: self.body@, dir: self.dir, pending_growth: self.pending_growth as nat }
    }
}

impl Snake {
    /// A fresh three-segment snake heading right, with its head at `(x, y)`
    /// and its tail extending left.
    pub fn new(x: i32, y: i32) -> (s: Snake)
        requires
            x - 2 >= i32::MIN,
        ensures
            s@.body == seq![(x, y), ((x - 1) as i32, y), ((x - 2) as i32, y)],
            s@.dir == Direction::Right,
            s@.pending_growth == 0,
    {
        let mut body: Vec<(i32, i32)> = Vec::new();
        body.push((x, y));
        body.push((x - 1, y));
        body.push((x - 2, y));
        proof {
            assert(body@ =~= seq![(x, y), ((x - 1) as i32, y), ((x - 2) as i32, y)]);
        }
        Snake { body, dir: Direction::Right, pending_growth: 0 }
    }

    /// The current head cell.
    pub fn head_position(&self) -> (p: (i32, i32))
        requires
            self@.body.len() > 0,
        ensures
            p == self@.body[0],
    {
        self.body[0]
    }

    /// The current heading.
    pub fn head_direction(&self) -> (d: Direction)
        ensures
            d == self@.dir,
    {
        self.dir
    }

    /// The number of queued growth units.
    pub fn pending_growth(&self) -> (n: u64)
        ensures
            n as nat == self@.pending_growth,
    {
        self.pending_growth
    }

    /// The segment chain, head first.
    pub fn segments(&self) -> (r: &Vec<(i32, i32)>)
        ensures
            r@ == self@.body,
    {
        &self.body
    }

    /// Where the head would move given an optional direction request.
    /// Pure: mutates nothing.
    pub fn next_head(&self, requested: Option<Direction>) -> (p: (i32, i32))
        requires
            self@.body.len() > 0,
            next_pos_fits(self@, requested),
        ensures
            p == spec_next_head(self@, requested),
    {
        let d = match requested {
            Option::Some(d) => d,
            Option::None => self.dir,
        };
        let head = self.body[0];
        match d {
            Direction::Up => (head.0, head.1 - 1),
            Direction::Down => (head.0, head.1 + 1),
            Direction::Left => (head.0 - 1, head.1),
            Direction::Right => (head.0 + 1, head.1),
        }
    }

    /// Whether `(x, y)` is occupied by any current body segment.
    pub fn overlap_tail(&self, x: i32, y: i32) -> (b: bool)
        ensures
            b == self@.body.contains((x, y)),
    {
        let mut i: usize = 0;
        while i < self.body.len()
            invariant
                0 <= i <= self@.body.len(),
                forall|k: int| 0 <= k < i ==> self@.body[k] != (x, y),
            decreases self@.body.len() - i,
        {
            let seg = self.body[i];
            if seg.0 == x && seg.1 == y {
                proof {
                    assert(self@.body[i as int] == (x, y));
                }
                return true;
            }
            i += 1;
        }
        false
    }

    /// Commits one movement tick: updates the heading if one was requested,
    /// prepends the new head, and pops the tail unless a growth unit was
    /// pending, in which case one unit is consumed instead.
    pub fn move_forward(&mut self, requested: Option<Direction>)
        requires
            old(self)@.body.len() > 0,
            next_pos_fits(old(self)@, requested),
        ensures
            final(self)@.dir == effective_dir(old(self)@.dir, requested),
            final(self)@.body == seq![spec_next_head(old(self)@, requested)] + (
                if old(self)@.pending_growth > 0 {
                    old(self)@.body
                } else {
                    old(self)@.body.drop_last()
                }
            ),
            final(self)@.pending_growth == if old(self)@.pending_growth > 0 {
                (old(self)@.pending_growth - 1) as nat
            } else {
                0nat
            },
    {
        let new_head = self.next_head(requested);
        self.dir = match requested {
            Option::Some(d) => d,
            Option::None => self.dir,
        };
        self.body.insert(0, new_head);
        if self.pending_growth > 0 {
            self.pending_growth = self.pending_growth - 1;
            proof {
                assert(self@.body =~= seq![new_head] + old(self)@.body);
            }
        } else {
            let _ = self.body.pop();
            proof {
                assert(self@.body =~= seq![new_head] + old(self)@.body.drop_last());
            }
        }
    }

    /// Queues one growth unit: on the next movement tick the tail is kept,
    /// lengthening the snake by one segment.
    pub fn restore_tail(&mut self)
        requires
            old(self)@.pending_growth < u64::MAX,
        ensures
            final(self)@.body == old(self)@.body,
            final(self)@.dir == old(self)@.dir,
            final(self)@.pending_growth == old(self)@.pending_growth + 1,
    {
        self.pending_growth = self.pending_growth + 1;
    }
}

} // verus!
