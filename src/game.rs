use vstd::prelude::*;

use crate::apple::Apple;
use crate::direction::{Direction, Key};
use crate::snake::{advance, saturating_inc, saturating_dec, Snake, SnakeView};

verus! {

/// A game session as a mathematical value.
pub struct AppView {
    pub score: u16,
    pub snake: SnakeView,
    pub apple: (u16, u16),
    pub running: bool,
}

/// One game session: the snake, the apple, the score and whether play goes on.
#[derive(Debug)]
pub struct App {
    score: u16,
    snake: Snake,
    apple: Apple,
    running: bool,
}

impl View for App {
    type V = AppView;

    closed spec fn view(&self) -> AppView {
        AppView {
            score: self.score,
            snake: self.snake@,
            apple: self.apple.pos(),
            running: self.running,
        }
    }
}

/// Whether the snake's head lies on the apple after the tick.
pub open spec fn meal(a: AppView) -> bool {
    advance(a.snake).0.body[0] == a.apple
}

/// Whether the snake lives through the tick with its head inside a field of
/// `width` by `height` cells.
pub open spec fn survives(a: AppView, width: u16, height: u16) -> bool {
    let (moved, alive) = advance(a.snake);
    alive && moved.body[0].0 < width && moved.body[0].1 < height
}

/// Whether the snake eats the apple on the tick: it survives and its head
/// then lies on the apple.
pub open spec fn eats(a: AppView, width: u16, height: u16) -> bool {
    survives(a, width, height) && meal(a)
}

/// Whether `b` is a session that one tick on a field of `width` by `height`
/// cells can lead to from `a`. Play ends on a tick that the snake does not
/// survive, and only on a tick that it survives can it eat. The new apple,
/// where one is placed, is random: only its bounds are fixed.
pub open spec fn ticked(a: AppView, b: AppView, width: u16, height: u16) -> bool {
    let moved = advance(a.snake).0;
    &&& b.running == (a.running && survives(a, width, height))
    &&& b.snake == if eats(a, width, height) {
        SnakeView { has_eaten: true, ..moved }
    } else {
        moved
    }
    &&& b.score == if eats(a, width, height) {
        saturating_inc(a.score)
    } else {
        a.score
    }
    &&& if eats(a, width, height) {
        b.apple.0 < width && b.apple.1 < height
    } else {
        b.apple == a.apple
    }
}

/// The character drawn on cell `(x, y)` when the first `k` segments of the
/// body have been painted over the apple: `#` for a segment behind the head,
/// `@` for the head, `$` for the apple and a blank elsewhere.
pub open spec fn painted(body: Seq<(u16, u16)>, apple: (u16, u16), k: int, x: u16, y: u16) -> char {
    if exists|i: int| 1 <= i < k && body[i] == (x, y) {
        '#'
    } else if 0 < k && body[0] == (x, y) {
        '@'
    } else if apple == (x, y) {
        '$'
    } else {
        ' '
    }
}

/// The character of cell `(x, y)` in the picture of a session.
pub open spec fn cell_char(a: AppView, x: u16, y: u16) -> char {
    painted(a.snake.body, a.apple, a.snake.body.len() as int, x, y)
}

impl Default for App {
    fn default() -> (r: App)
        ensures
            r@ == (AppView {
                score: 0,
                snake: SnakeView {
                    body: Seq::empty(),
                    speed: 0,
                    tick_counter: 0,
                    dir: Direction::Right,
                    has_eaten: false,
                    changing_dir: false,
                },
                apple: (0u16, 0u16),
                running: false,
            }),
    {
        App { score: 0, snake: Snake::default(), apple: Apple::default(), running: false }
    }
}

impl App {
    /// A session that has not started: no snake cells, no score.
    pub fn new() -> (r: App)
        ensures
            r@ == (AppView {
                score: 0,
                snake: SnakeView {
                    body: Seq::empty(),
                    speed: 0,
                    tick_counter: 0,
                    dir: Direction::Right,
                    has_eaten: false,
                    changing_dir: false,
                },
                apple: (0u16, 0u16),
                running: false,
            }),
    {
        Self::default()
    }

    /// Starts play on a field of `width` by `height` cells: the snake in the
    /// middle, heading right, and the apple on a random cell of the field.
    pub fn start(&mut self, width: u16, height: u16)
        requires
            width >= 2,
            height >= 1,
        ensures
            final(self)@.running,
            final(self)@.score == old(self)@.score,
            final(self)@.snake == (SnakeView {
                body: seq![(width / 2, height / 2), ((width / 2 - 1) as u16, height / 2)],
                speed: 1,
                tick_counter: 0,
                dir: Direction::Right,
                has_eaten: false,
                changing_dir: false,
            }),
            final(self)@.apple.0 < width,
            final(self)@.apple.1 < height,
    {
        self.running = true;
        self.snake = Snake::new(width / 2, height / 2);
        self.apple = Apple::spawn((width, height));
    }

    /// One tick of play on a field of `width` by `height` cells, whose size
    /// may have changed since the last tick. The snake advances; play ends
    /// when it dies or its head leaves the field. Otherwise, where the head
    /// lies on the apple, the snake eats it, the score goes up by one and a
    /// new apple is placed on a random cell of the field.
    pub fn tick(&mut self, width: u16, height: u16)
        requires
            width >= 1,
            height >= 1,
            old(self)@.snake.body.len() > 0,
        ensures
            ticked(old(self)@, final(self)@, width, height),
            final(self)@.snake.body.len() > 0,
    {
        let alive = self.snake.move_or_die();
        let head = self.snake.body[0];
        match alive {
            Some(()) => {
                if head.0 > width - 1 || head.1 > height - 1 {
                    self.running = false;
                } else {
                    let apple = self.apple.position();
                    if apple.0 == head.0 && apple.1 == head.1 {
                        self.snake.eat();
                        self.apple = Apple::spawn((width, height));
                        self.inc_score();
                    }
                }
            },
            None => {
                self.running = false;
            },
        }
    }

    /// Applies a key press: `q` or `Q` ends play, `[` and `]` lower and raise
    /// the speed, an arrow turns the snake unless it would reverse and marks a
    /// turn either way; any other key is ignored.
    pub fn on_key_event(&mut self, key: Key)
        ensures
            final(self)@ == match key {
                Key::Char(c) => if c == 'q' || c == 'Q' {
                    AppView { running: false, ..old(self)@ }
                } else if c == '[' {
                    AppView {
                        snake: SnakeView { speed: saturating_dec(old(self)@.snake.speed), ..old(self)@.snake },
                        ..old(self)@
                    }
                } else if c == ']' {
                    AppView {
                        snake: SnakeView { speed: saturating_inc(old(self)@.snake.speed), ..old(self)@.snake },
                        ..old(self)@
                    }
                } else {
                    old(self)@
                },
                _ => match Direction::of_arrow(key) {
                    Some(d) => AppView {
                        snake: SnakeView {
                            dir: old(self)@.snake.dir.turned(d),
                            changing_dir: true,
                            ..old(self)@.snake
                        },
                        ..old(self)@
                    },
                    None => old(self)@,
                },
            },
    {
        match key {
            Key::Char(input) => {
                if input == 'q' || input == 'Q' {
                    self.quit();
                } else if input == '[' {
                    self.snake.dec_speed();
                } else if input == ']' {
                    self.snake.inc_speed();
                }
            },
            _ => {
                if self.snake.dir.change_direction_no_reverse_arrow(key) {
                    self.snake.changing_dir = true;
                }
            },
        }
    }

    /// The picture of the field, `height` rows of `width` characters: see
    /// `cell_char`. Cells of the snake or the apple outside the field are left out.
    pub fn grid(&self, width: u16, height: u16) -> (r: Vec<Vec<char>>)
        ensures
            r@.len() == height,
            forall|y: int| 0 <= y < height ==> (#[trigger] r@[y])@.len() == width,
            forall|y: int, x: int|
                0 <= y < height && 0 <= x < width ==> #[trigger] r@[y]@[x] == cell_char(
                    self@,
                    x as u16,
                    y as u16,
                ),
    {
        let apple = self.apple.position();
        let ghost body = self.snake.body@;
        let mut rows: Vec<Vec<char>> = Vec::new();
        let mut y: u16 = 0;
        while y < height
            invariant
                y <= height,
                apple == self@.apple,
                body == self@.snake.body,
                rows@.len() == y,
                forall|yy: int| 0 <= yy < y ==> (#[trigger] rows@[yy])@.len() == width,
                forall|yy: int, x: int|
                    0 <= yy < y && 0 <= x < width ==> #[trigger] rows@[yy]@[x] == cell_char(
                        self@,
                        x as u16,
                        yy as u16,
                    ),
            decreases height - y,
        {
            let mut row: Vec<char> = Vec::new();
            let mut x: u16 = 0;
            while x < width
                invariant
                    x <= width,
                    row@.len() == x,
                    forall|xx: int|
                        0 <= xx < x ==> #[trigger] row@[xx] == painted(body, apple, 0, xx as u16, y),
                decreases width - x,
            {
                if apple.0 == x && apple.1 == y {
                    row.push('$');
                } else {
                    row.push(' ');
                }
                x += 1;
            }
            let mut k: usize = 0;
            while k < self.snake.body.len()
                invariant
                    k <= body.len(),
                    body == self.snake.body@,
                    row@.len() == width,
                    forall|xx: int|
                        0 <= xx < width ==> #[trigger] row@[xx] == painted(
                            body,
                            apple,
                            k as int,
                            xx as u16,
                            y,
                        ),
                decreases body.len() - k,
            {
                let segment = self.snake.body[k];
                let ghost before = row@;
                if segment.1 == y && segment.0 < width {
                    if k == 0 {
                        row.set(segment.0 as usize, '@');
                    } else {
                        row.set(segment.0 as usize, '#');
                    }
                }
                assert forall|xx: int| 0 <= xx < width implies #[trigger] row@[xx] == painted(
                    body,
                    apple,
                    k + 1,
                    xx as u16,
                    y,
                ) by {
                    let c = (xx as u16, y);
                    if body[k as int] == c {
                        if k > 0 {
                            assert(1 <= k < k + 1 && body[k as int] == c);
                        }
                    } else {
                        if exists|i: int| 1 <= i < k + 1 && body[i] == c {
                            let i = choose|i: int| 1 <= i < k + 1 && body[i] == c;
                            assert(1 <= i < k && body[i] == c);
                        }
                        assert(row@[xx] == before[xx]);
                    }
                }
                k += 1;
            }
            rows.push(row);
            y += 1;
        }
        rows
    }

    /// Ends play.
    pub fn quit(&mut self)
        ensures
            final(self)@ == (AppView { running: false, ..old(self)@ }),
    {
        self.running = false;
    }

    /// Adds one to the score, staying at the largest value.
    pub fn inc_score(&mut self)
        ensures
            final(self)@ == (AppView { score: saturating_inc(old(self)@.score), ..old(self)@ }),
    {
        self.score = self.score.saturating_add(1);
    }

    /// A running session with the given snake and apple and no score yet.
    pub fn from_parts(snake: Snake, apple: Apple) -> (r: App)
        ensures
            r@ == (AppView { score: 0, snake: snake@, apple: apple.pos(), running: true }),
    {
        App { score: 0, snake, apple, running: true }
    }

    pub fn score(&self) -> (r: u16)
        ensures
            r == self@.score,
    {
        self.score
    }

    pub fn is_running(&self) -> (r: bool)
        ensures
            r == self@.running,
    {
        self.running
    }

    pub fn snake(&self) -> (r: &Snake)
        ensures
            r@ == self@.snake,
    {
        &self.snake
    }

    pub fn apple(&self) -> (r: Apple)
        ensures
            r.pos() == self@.apple,
    {
        self.apple
    }
}

/// Over one tick the score never falls: it goes up by exactly one when the
/// snake lives through the tick and eats the apple, unless it already stands
/// at its largest value, where it stays instead of wrapping; on any other tick
/// it is unchanged.
pub proof fn lemma_score_counts_meals(a: AppView, b: AppView, width: u16, height: u16)
    requires
        ticked(a, b, width, height),
    ensures
        b.score >= a.score,
        eats(a, width, height) && a.score < u16::MAX ==> b.score == a.score + 1,
        eats(a, width, height) && a.score == u16::MAX ==> b.score == u16::MAX,
        !eats(a, width, height) ==> b.score == a.score,
        eats(a, width, height) <==> survives(a, width, height) && advance(a.snake).0.body[0]
            == a.apple,
{
}

/// A tick on which the snake dies, or on which its head leaves the field,
/// ends play, and the apple rule does not apply on it: the score, the apple
/// and the pending meal stay as the move left them.
pub proof fn lemma_fatal_tick_ends_play(a: AppView, b: AppView, width: u16, height: u16)
    requires
        ticked(a, b, width, height),
        !advance(a.snake).1 || advance(a.snake).0.body[0].0 >= width
            || advance(a.snake).0.body[0].1 >= height,
    ensures
        !b.running,
        b.score == a.score,
        b.apple == a.apple,
        b.snake == advance(a.snake).0,
{
}

} // verus!
