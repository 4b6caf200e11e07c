use vstd::prelude::*;

use std::collections::VecDeque;

use crate::direction::Direction;

verus! {

/// Ticks between two horizontal steps at speed one. Vertical steps take twice
/// as many, since a terminal cell is about twice as tall as it is wide.
pub const SPEED_TUNER: u16 = 20;

/// The snake as a mathematical value: the body as a sequence of cells, head first.
pub struct SnakeView {
    pub body: Seq<(u16, u16)>,
    pub speed: u16,
    pub tick_counter: u16,
    pub dir: Direction,
    pub has_eaten: bool,
    pub changing_dir: bool,
}

#[derive(Debug)]
pub struct Snake {
    /// The cells of the snake, head at the front.
    pub body: VecDeque<(u16, u16)>,
    /// Zero freezes the snake; higher values step more often.
    pub speed: u16,
    /// Ticks seen so far, wrapping around.
    pub tick_counter: u16,
    pub dir: Direction,
    /// The next step keeps the tail, so that the snake grows by one cell.
    pub has_eaten: bool,
    /// The heading changed since the last step: the next step skips the
    /// check of the head against the body.
    pub changing_dir: bool,
}

impl View for Snake {
    type V = SnakeView;

    open spec fn view(&self) -> SnakeView {
        SnakeView {
            body: self.body@,
            speed: self.speed,
            tick_counter: self.tick_counter,
            dir: self.dir,
            has_eaten: self.has_eaten,
            changing_dir: self.changing_dir,
        }
    }
}

/// The tick divisor of a heading.
pub open spec fn tuning(dir: Direction) -> int {
    if dir.is_horizontal() {
        SPEED_TUNER as int
    } else {
        2 * SPEED_TUNER
    }
}

/// The number of ticks between two steps at a positive speed, at least one.
pub open spec fn period(dir: Direction, speed: u16) -> int
    recommends
        speed > 0,
{
    let q = tuning(dir) / speed as int;
    if q < 1 {
        1
    } else {
        q
    }
}

/// Whether the snake steps on the tick whose counter reads `tick`.
pub open spec fn moves_on(dir: Direction, speed: u16, tick: u16) -> bool {
    speed != 0 && tick as int % period(dir, speed) == 0
}

/// The counter after one more tick.
pub open spec fn next_tick(t: u16) -> u16 {
    ((t as int + 1) % 0x1_0000) as u16
}

/// The cell one step from `head`, or `None` where a coordinate would leave
/// the range of `u16`.
pub open spec fn step_to(head: (u16, u16), dir: Direction) -> Option<(u16, u16)> {
    let x = head.0 as int + dir.delta().0;
    let y = head.1 as int + dir.delta().1;
    if 0 <= x <= u16::MAX as int && 0 <= y <= u16::MAX as int {
        Some((x as u16, y as u16))
    } else {
        None
    }
}

/// The body after the head moved to `head`: the tail stays only after a meal.
pub open spec fn grown(body: Seq<(u16, u16)>, head: (u16, u16), eaten: bool) -> Seq<(u16, u16)> {
    let b = seq![head].add(body);
    if eaten {
        b
    } else {
        b.drop_last()
    }
}

/// Whether a segment behind the head lies on `head`.
pub open spec fn bites(body: Seq<(u16, u16)>, head: (u16, u16)) -> bool {
    exists|i: int| 1 <= i < body.len() && body[i] == head
}

/// One tick of the snake: the state after it, and whether the snake lives.
pub open spec fn advance(s: SnakeView) -> (SnakeView, bool) {
    let tick = next_tick(s.tick_counter);
    let ticked = SnakeView { tick_counter: tick, ..s };
    if !moves_on(s.dir, s.speed, tick) {
        (ticked, true)
    } else if s.body.len() == 0 {
        (ticked, false)
    } else {
        match step_to(s.body[0], s.dir) {
            None => (ticked, false),
            Some(h) => {
                let body = grown(s.body, h, s.has_eaten);
                (
                    SnakeView {
                        body,
                        tick_counter: tick,
                        has_eaten: false,
                        changing_dir: false,
                        ..s
                    },
                    s.changing_dir || !bites(body, h),
                )
            },
        }
    }
}

/// `n` ticks of the snake, whether it lives through them or not.
pub open spec fn advance_n(s: SnakeView, n: nat) -> SnakeView
    decreases n,
{
    if n == 0 {
        s
    } else {
        advance(advance_n(s, (n - 1) as nat)).0
    }
}

/// Adds one, staying at the largest value instead of wrapping.
pub open spec fn saturating_inc(v: u16) -> u16 {
    if v == u16::MAX {
        v
    } else {
        (v + 1) as u16
    }
}

/// Takes one away, staying at zero.
pub open spec fn saturating_dec(v: u16) -> u16 {
    if v == 0 {
        v
    } else {
        (v - 1) as u16
    }
}

impl Default for Snake {
    fn default() -> (r: Snake)
        ensures
            r@ == (SnakeView {
                body: Seq::empty(),
                speed: 0,
                tick_counter: 0,
                dir: Direction::Right,
                has_eaten: false,
                changing_dir: false,
            }),
    {
        Snake {
            body: VecDeque::new(),
            speed: 0,
            tick_counter: 0,
            dir: Direction::default(),
            has_eaten: false,
            changing_dir: false,
        }
    }
}

impl Snake {
    /// A snake of two cells with its head on `(x, y)` and its tail to the
    /// left of it, heading right at speed one.
    pub fn new(x: u16, y: u16) -> (r: Snake)
        requires
            x >= 1,
        ensures
            r@ == (SnakeView {
                body: seq![(x, y), ((x - 1) as u16, y)],
                speed: 1,
                tick_counter: 0,
                dir: Direction::Right,
                has_eaten: false,
                changing_dir: false,
            }),
    {
        let mut body: VecDeque<(u16, u16)> = VecDeque::new();
        body.push_back((x, y));
        body.push_back((x - 1, y));
        proof {
            assert(body@ =~= seq![(x, y), ((x - 1) as u16, y)]);
        }
        Snake {
            body,
            speed: 1,
            tick_counter: 0,
            dir: Direction::default(),
            has_eaten: false,
            changing_dir: false,
        }
    }

    /// Counts one tick and, on the ticks that the speed selects, moves the
    /// head one cell along the heading. Returns `None` when the snake dies:
    /// the head would leave the range of the coordinates, or it lands on the
    /// rest of the body while no turn suppresses that check. The bounds of
    /// the playing field are left to the caller.
    #[verifier::loop_isolation(false)]
    pub fn move_or_die(&mut self) -> (r: Option<()>)
        ensures
            (final(self)@, r is Some) == advance(old(self)@),
    {
        let speed = self.speed;
        let speed_tuning: u16 = match self.dir {
            Direction::Right | Direction::Left => SPEED_TUNER,
            Direction::Up | Direction::Down => SPEED_TUNER * 2,
        };
        self.tick_counter = self.tick_counter.wrapping_add(1);
        if speed == 0 {
            return Some(());
        }
        let q = speed_tuning / speed;
        let p: u16 = if q < 1 {
            1
        } else {
            q
        };
        if self.tick_counter % p != 0 {
            return Some(());
        }
        if self.body.len() == 0 {
            return None;
        }
        let head = self.body[0];
        let d = self.dir.to_delta_vec();
        let new_x: i32 = head.0 as i32 + d.0;
        let new_y: i32 = head.1 as i32 + d.1;
        if new_x < 0 || new_x > u16::MAX as i32 || new_y < 0 || new_y > u16::MAX as i32 {
            return None;
        }
        let new_head = (new_x as u16, new_y as u16);
        let ghost old_body = self.body@;
        self.body.push_front(new_head);
        if !self.has_eaten {
            self.body.pop_back();
        } else {
            self.has_eaten = false;
        }
        proof {
            assert(self.body@ =~= grown(old_body, new_head, old(self).has_eaten));
        }
        if !self.changing_dir {
            let ghost moved = self@;
            let mut i: usize = 1;
            while i < self.body.len()
                invariant
                    self@ == moved,
                    1 <= i <= self.body@.len(),
                    forall|j: int| 1 <= j < i ==> self.body@[j] != new_head,
                decreases self.body@.len() - i,
            {
                let segment = self.body[i];
                if segment.0 == new_head.0 && segment.1 == new_head.1 {
                    proof {
                        assert(bites(self.body@, new_head) && self.body@[i as int] == new_head);
                    }
                    return None;
                }
                i += 1;
            }
        }
        self.changing_dir = false;
        Some(())
    }

    /// Raises the speed by one, staying at the largest value.
    pub fn inc_speed(&mut self)
        ensures
            final(self)@ == (SnakeView { speed: saturating_inc(old(self).speed), ..old(self)@ }),
    {
        self.speed = self.speed.saturating_add(1);
    }

    /// Lowers the speed by one, staying at zero.
    pub fn dec_speed(&mut self)
        ensures
            final(self)@ == (SnakeView { speed: saturating_dec(old(self).speed), ..old(self)@ }),
    {
        self.speed = self.speed.saturating_sub(1);
    }

    /// Marks a meal: the next step keeps the tail.
    pub fn eat(&mut self)
        ensures
            final(self)@ == (SnakeView { has_eaten: true, ..old(self)@ }),
    {
        self.has_eaten = true;
    }
}

/// A meal followed by a tick on which the snake steps and lives makes the
/// body exactly one cell longer and leaves no meal pending.
pub proof fn lemma_meal_grows_by_one(s: SnakeView)
    requires
        moves_on(s.dir, s.speed, next_tick(s.tick_counter)),
        advance(SnakeView { has_eaten: true, ..s }).1,
    ensures
        advance(SnakeView { has_eaten: true, ..s }).0.body.len() == s.body.len() + 1,
        !advance(SnakeView { has_eaten: true, ..s }).0.has_eaten,
{
}

/// Without a pending meal, a tick that the snake lives through keeps the
/// length of the body.
pub proof fn lemma_length_kept(s: SnakeView)
    requires
        !s.has_eaten,
        advance(s).1,
    ensures
        advance(s).0.body.len() == s.body.len(),
{
}

/// A snake with a body dies on a tick exactly when it steps there and the new
/// head either leaves the range of the coordinates or, with no turn pending,
/// lands on a segment that stays in place: any cell of the old body but the
/// tail that moves away when no meal is pending.
pub proof fn lemma_death_iff_collision(s: SnakeView)
    requires
        s.body.len() > 0,
    ensures
        !advance(s).1 <==> moves_on(s.dir, s.speed, next_tick(s.tick_counter)) && match step_to(
            s.body[0],
            s.dir,
        ) {
            None => true,
            Some(h) => !s.changing_dir && exists|i: int|
                0 <= i < s.body.len() - (if s.has_eaten {
                    0int
                } else {
                    1int
                }) && s.body[i] == h,
        },
{
    if moves_on(s.dir, s.speed, next_tick(s.tick_counter)) {
        if let Some(h) = step_to(s.body[0], s.dir) {
            let body = grown(s.body, h, s.has_eaten);
            let keep = s.body.len() - (if s.has_eaten {
                0int
            } else {
                1int
            });
            assert(body.len() == keep + 1);
            assert forall|i: int| 1 <= i < body.len() implies body[i] == s.body[i - 1] by {}
            if bites(body, h) {
                let i = choose|i: int| 1 <= i < body.len() && body[i] == h;
                assert(0 <= i - 1 < keep && s.body[i - 1] == h);
            }
            if exists|i: int| 0 <= i < keep && s.body[i] == h {
                let i = choose|i: int| 0 <= i < keep && s.body[i] == h;
                assert(body[i + 1] == h);
            }
        }
    }
}

/// The body changes only on the ticks that the speed selects. On every other
/// tick the body stays as it is and the snake lives; on a selected tick that it
/// lives through, the head is one step from the old head.
pub proof fn lemma_moves_only_on_selected_ticks(s: SnakeView)
    ensures
        !moves_on(s.dir, s.speed, next_tick(s.tick_counter)) ==> advance(s).0.body == s.body
            && advance(s).1,
        moves_on(s.dir, s.speed, next_tick(s.tick_counter)) && advance(s).1 ==> s.body.len() > 0
            && step_to(s.body[0], s.dir) == Some(advance(s).0.body[0]),
        advance(s).0.tick_counter == next_tick(s.tick_counter),
{
}

/// At speed zero the body never changes, over any number of ticks, while the
/// counter still advances, wrapping around.
pub proof fn lemma_frozen_at_speed_zero(s: SnakeView, n: nat)
    requires
        s.speed == 0,
    ensures
        advance_n(s, n).body == s.body,
        advance_n(s, n).speed == 0,
        advance_n(s, n).tick_counter as int == (s.tick_counter as int + n) % 0x1_0000,
    decreases n,
{
    if n > 0 {
        lemma_frozen_at_speed_zero(s, (n - 1) as nat);
        let prev = advance_n(s, (n - 1) as nat);
        assert(advance_n(s, n) == advance(prev).0);
        assert((((s.tick_counter as int + (n - 1)) % 0x1_0000) + 1) % 0x1_0000 == (
        s.tick_counter as int + n) % 0x1_0000) by (nonlinear_arith);
    }
}

} // verus!
