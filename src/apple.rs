use vstd::prelude::*;

verus! {

/// Relies on rand::random_range: a value drawn from `0..n` by the thread's
/// generator; it panics on an empty range, so `n` is positive.
#[verifier::external_body]
fn random_below(n: u16) -> (r: u16)
    requires
        n > 0,
    ensures
        r < n,
{
    rand::random_range(0..n)
}

/// The apple: one cell of the grid.
#[derive(Clone, Copy, Debug)]
pub struct Apple {
    position: (u16, u16),
}

impl Default for Apple {
    fn default() -> (r: Apple)
        ensures
            r.pos() == (0u16, 0u16),
    {
        Apple { position: (0, 0) }
    }
}

impl Apple {
    /// The cell that the apple lies on.
    pub closed spec fn pos(self) -> (u16, u16) {
        self.position
    }

    /// An apple on a cell drawn at random, each coordinate below its bound.
    /// The cell may lie on the snake.
    pub fn spawn(max_coords: (u16, u16)) -> (r: Apple)
        requires
            max_coords.0 > 0,
            max_coords.1 > 0,
        ensures
            r.pos().0 < max_coords.0,
            r.pos().1 < max_coords.1,
    {
        let x = random_below(max_coords.0);
        let y = random_below(max_coords.1);
        Apple { position: (x, y) }
    }

    /// An apple on the given cell.
    pub fn at(position: (u16, u16)) -> (r: Apple)
        ensures
            r.pos() == position,
    {
        Apple { position }
    }

    pub fn position(&self) -> (r: (u16, u16))
        ensures
            r == self.pos(),
    {
        self.position
    }
}

} // verus!
