use vstd::prelude::*;

verus! {

/// The heading of the snake on the grid.
#[derive(Clone, Copy, Debug, PartialEq, Eq, Structural)]
pub enum Direction {
    Right,
    Left,
    Up,
    Down,
}

/// A key press, as far as the game cares to tell keys apart.
#[derive(Clone, Copy, Debug, PartialEq, Eq, Structural)]
pub enum Key {
    Right,
    Left,
    Up,
    Down,
    Char(char),
    Other,
}

impl Default for Direction {
    fn default() -> (r: Direction)
        ensures
            r == Direction::Right,
    {
        Direction::Right
    }
}

impl Direction {
    /// The heading that points the other way.
    pub open spec fn opposite(self) -> Direction {
        match self {
            Direction::Right => Direction::Left,
            Direction::Left => Direction::Right,
            Direction::Up => Direction::Down,
            Direction::Down => Direction::Up,
        }
    }

    /// The unit displacement of one step in this heading; `y` grows downwards.
    pub open spec fn delta(self) -> (int, int) {
        match self {
            Direction::Right => (1, 0),
            Direction::Left => (-1, 0),
            Direction::Up => (0, -1),
            Direction::Down => (0, 1),
        }
    }

    /// The heading after a turn towards `new_direction` that may not reverse.
    pub open spec fn turned(self, new_direction: Direction) -> Direction {
        if new_direction == self.opposite() {
            self
        } else {
            new_direction
        }
    }

    /// Whether the heading runs along the `x` axis.
    pub open spec fn is_horizontal(self) -> bool {
        self == Direction::Right || self == Direction::Left
    }

    /// The heading that an arrow key names, if it is one.
    pub open spec fn of_arrow(key: Key) -> Option<Direction> {
        match key {
            Key::Right => Some(Direction::Right),
            Key::Left => Some(Direction::Left),
            Key::Up => Some(Direction::Up),
            Key::Down => Some(Direction::Down),
            _ => None,
        }
    }

    /// Turns to `new_direction`, whatever the current heading.
    pub fn change_direction(&mut self, new_direction: Direction)
        ensures
            *final(self) == new_direction,
    {
        *self = new_direction;
    }

    /// Turns to `new_direction` unless it is the direct reverse of the current
    /// heading, in which case the heading stays as it is.
    pub fn change_direction_no_reverse(&mut self, new_direction: Direction)
        ensures
            *final(self) == old(self).turned(new_direction),
    {
        let reverse = match *self {
            Direction::Right => new_direction == Direction::Left,
            Direction::Left => new_direction == Direction::Right,
            Direction::Up => new_direction == Direction::Down,
            Direction::Down => new_direction == Direction::Up,
        };
        if !reverse {
            self.change_direction(new_direction);
        }
    }

    /// Applies an arrow key as a turn that may not reverse the heading.
    /// Returns whether the key was an arrow; other keys leave the heading alone.
    pub fn change_direction_no_reverse_arrow(&mut self, new_dir: Key) -> (r: bool)
        ensures
            r == Self::of_arrow(new_dir).is_some(),
            *final(self) == match Self::of_arrow(new_dir) {
                Some(d) => old(self).turned(d),
                None => *old(self),
            },
    {
        match new_dir {
            Key::Right => {
                self.change_direction_no_reverse(Direction::Right);
                true
            },
            Key::Left => {
                self.change_direction_no_reverse(Direction::Left);
                true
            },
            Key::Up => {
                self.change_direction_no_reverse(Direction::Up);
                true
            },
            Key::Down => {
                self.change_direction_no_reverse(Direction::Down);
                true
            },
            _ => false,
        }
    }

    /// The step of this heading as `(dx, dy)`.
    pub fn to_delta_vec(&self) -> (r: (i32, i32))
        ensures
            r.0 as int == self.delta().0,
            r.1 as int == self.delta().1,
    {
        match self {
            Direction::Right => (1, 0),
            Direction::Left => (-1, 0),
            Direction::Up => (0, -1),
            Direction::Down => (0, 1),
        }
    }
}

/// A turn that is refused leaves the heading as it was, and every other turn
/// is taken: reversing is refused exactly when the new heading is the direct
/// opposite, and no heading is its own opposite.
pub proof fn lemma_no_reverse_turns(d: Direction, new_direction: Direction)
    ensures
        new_direction == d.opposite() ==> new_direction != d,
        d.opposite().opposite() == d,
        new_direction != d.opposite() <==> (match d {
            Direction::Right => new_direction != Direction::Left,
            Direction::Left => new_direction != Direction::Right,
            Direction::Up => new_direction != Direction::Down,
            Direction::Down => new_direction != Direction::Up,
        }),
{
}

/// Whether `v` is one of the four unit vectors along the axes.
pub open spec fn is_unit_step(v: (int, int)) -> bool {
    v == (1int, 0int) || v == (-1int, 0int) || v == (0int, 1int) || v == (0int, -1int)
}

/// The step of a heading is a one-to-one map from the four headings onto the
/// four unit vectors `(1, 0)`, `(-1, 0)`, `(0, 1)` and `(0, -1)`.
pub proof fn lemma_delta_bijective()
    ensures
        forall|a: Direction, b: Direction| #[trigger] a.delta() == #[trigger] b.delta() ==> a == b,
        forall|d: Direction| is_unit_step(#[trigger] d.delta()),
        forall|v: (int, int)| #[trigger] is_unit_step(v) ==> exists|d: Direction| d.delta() == v,
{
    assert forall|v: (int, int)| #[trigger] is_unit_step(v) implies exists|d: Direction|
        d.delta() == v by {
        if v == (1int, 0int) {
            assert(Direction::Right.delta() == v);
        } else if v == (-1int, 0int) {
            assert(Direction::Left.delta() == v);
        } else if v == (0int, 1int) {
            assert(Direction::Down.delta() == v);
        } else {
            assert(Direction::Up.delta() == v);
        }
    }
}

} // verus!
