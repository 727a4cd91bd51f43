//! The game state and what one tick of the game does to it.

use vstd::prelude::*;
use crate::frame::Frame;
use crate::gameobjs::{is_direction, grown, moved, Apple, AppleType, Snake};

verus! {

/// What a keypress asks of the game.
#[derive(Clone, Copy, Debug, PartialEq, Eq, Structural)]
pub enum Command {
    Up,
    Down,
    Left,
    Right,
    Quit,
    NoOp,
}

/// The heading a command asks for, if it asks for one.
pub open spec fn command_dir(cmd: Command) -> Option<(i16, i16)> {
    match cmd {
        Command::Up => Some((0i16, 1i16)),
        Command::Down => Some((0i16, -1i16)),
        Command::Left => Some((-1i16, 0i16)),
        Command::Right => Some((1i16, 0i16)),
        _ => None,
    }
}

/// The heading after asking for `cand` while moving along `dir`: in easy
/// mode a turn straight back is refused, in hard mode every turn is taken.
pub open spec fn steer(dir: (i16, i16), cand: (i16, i16), easy: bool) -> (i16, i16) {
    if easy && cand.0 == -dir.0 && cand.1 == -dir.1 {
        dir
    } else {
        cand
    }
}

/// The command that a keypress gives. `first` is the byte read; when it is
/// an escape, `last` is the third byte of the arrow-key sequence.
pub open spec fn key_command(first: u8, last: u8) -> Command {
    if first == 27 {
        if last == 65 {
            Command::Down
        } else if last == 66 {
            Command::Up
        } else if last == 67 {
            Command::Right
        } else if last == 68 {
            Command::Left
        } else {
            Command::NoOp
        }
    } else if first == 113 {  // q
        Command::Quit
    } else if first == 119 {
        Command::Down
    } else if first == 115 {
        Command::Up
    } else if first == 97 {
        Command::Left
    } else if first == 100 {
        Command::Right
    } else {
        Command::NoOp
    }
}

/// Some segment after the head stands on the head's cell.
pub open spec fn bites_itself(body: Seq<(u16, u16)>) -> bool {
    exists|i: int| 1 <= i < body.len() && #[trigger] body[i] == body[0]
}

/// Whether to wait before the next tick, and for how many milliseconds.
#[derive(Clone, Copy, Debug, PartialEq, Eq, Structural)]
pub enum Turn {
    Wait(u64),
    Go,
}

/// A game in progress.
#[derive(Debug)]
pub struct App {
    pub frame: Frame,
    pub red_apple: Apple,
    pub yellow_apple: Apple,
    pub snake: Snake,
    pub speed: u64,
    pub score: u64,
    pub game_over: bool,
    pub quit: bool,
    pub easy_mode: bool,
    pub fixed_size: bool,
}

/// Rows kept below the board for the score panel.
pub const PANEL_ROWS: u16 = 3;

impl App {
    pub open spec fn wf(self) -> bool {
        &&& self.frame.has_field()
        &&& self.snake.wf()
        &&& self.snake.frame == self.frame
        &&& self.red_apple.apple_type == AppleType::Red
        &&& self.red_apple.tier_ok()
        &&& self.red_apple.frame == self.frame
        &&& self.yellow_apple.apple_type == AppleType::Yellow
        &&& self.yellow_apple.tier_ok()
        &&& self.yellow_apple.frame == self.frame
        &&& self.speed >= 1
    }

    /// Points gained when the head stands on `head`.
    pub open spec fn points_at(self, head: (u16, u16)) -> int {
        (if head == self.red_apple.pos {
            self.red_apple.points as int
        } else {
            0
        }) + (if head == self.yellow_apple.pos {
            self.yellow_apple.points as int
        } else {
            0
        })
    }

    /// Speed gained when the head stands on `head`.
    pub open spec fn speed_at(self, head: (u16, u16)) -> int {
        (if head == self.red_apple.pos {
            self.red_apple.inc_speed as int
        } else {
            0
        }) + (if head == self.yellow_apple.pos {
            self.yellow_apple.inc_speed as int
        } else {
            0
        })
    }

    /// Score and speed can take what eating at `head` adds without
    /// overflowing.
    pub open spec fn no_overflow_at(self, head: (u16, u16)) -> bool {
        self.score + self.points_at(head) <= u64::MAX && self.speed + self.speed_at(head)
            <= u64::MAX
    }

    /// The frame of a board that fills a terminal of size `term`.
    pub open spec fn fitted_frame(term: (u16, u16)) -> Frame {
        Frame { pos: (1u16, 1u16), size: (term.0, (term.1 - PANEL_ROWS) as u16) }
    }

    /// A terminal of size `term` leaves room for a board with an interior.
    pub open spec fn fits(term: (u16, u16)) -> bool {
        term.0 >= 3 && term.1 >= 3 + PANEL_ROWS
    }

    /// The game after a command: a quit request is noted, and a heading is
    /// taken as `steer` allows.
    pub open spec fn steered(self, cmd: Command) -> App {
        App {
            quit: self.quit || cmd == Command::Quit,
            snake: Snake {
                dir: match command_dir(cmd) {
                    Some(d) => steer(self.snake.dir, d, self.easy_mode),
                    None => self.snake.dir,
                },
                ..self.snake
            },
            ..self
        }
    }

    /// `r` is what collision handling makes of `a` once its snake's body
    /// has become `body`: an apple under the new head is eaten, the snake
    /// grows by its points, speed and score rise, that apple moves to a
    /// fresh cell; and the game is over if the head meets its own body.
    /// When both apples lie under the head both count, the snake grows by
    /// the yellow one's points and only the yellow one moves.
    pub open spec fn collided(a: App, body: Seq<(u16, u16)>, r: App) -> bool {
        let head = body[0];
        let red = head == a.red_apple.pos;
        let yellow = head == a.yellow_apple.pos;
        &&& r.snake.body@ == (if yellow {
            grown(body, a.yellow_apple.points as nat)
        } else if red {
            grown(body, a.red_apple.points as nat)
        } else {
            body
        })
        &&& r.snake.dir == a.snake.dir
        &&& r.snake.frame == a.snake.frame
        &&& r.speed == a.speed + (if red {
            a.red_apple.inc_speed
        } else {
            0
        }) + (if yellow {
            a.yellow_apple.inc_speed
        } else {
            0
        })
        &&& r.score == a.score + (if red {
            a.red_apple.points
        } else {
            0
        }) + (if yellow {
            a.yellow_apple.points
        } else {
            0
        })
        &&& (if red && !yellow {
            r.red_apple == (Apple { pos: r.red_apple.pos, ..a.red_apple }) && a.frame.contains(
                r.red_apple.pos,
            )
        } else {
            r.red_apple == a.red_apple
        })
        &&& (if yellow {
            r.yellow_apple == (Apple { pos: r.yellow_apple.pos, ..a.yellow_apple })
                && a.frame.contains(r.yellow_apple.pos)
        } else {
            r.yellow_apple == a.yellow_apple
        })
        &&& r.game_over == (a.game_over || bites_itself(body))
        &&& r.frame == a.frame
        &&& r.quit == a.quit
        &&& r.easy_mode == a.easy_mode
        &&& r.fixed_size == a.fixed_size
    }

    /// `r` is the game one tick after `self` under `cmd`: steer, move one
    /// cell, then handle collisions.
    pub open spec fn ticked(self, cmd: Command, r: App) -> bool {
        let s = self.steered(cmd);
        App::collided(s, moved(s.snake.body@, s.snake.next_head()), r)
    }

    /// Milliseconds between ticks: `1000 / speed`, where vertical movement
    /// runs at `speed / 1.6`, rounded down.
    pub open spec fn interval(self) -> int {
        let eff = if self.snake.dir.1 != 0 {
            self.speed * 5int / 8
        } else {
            self.speed as int
        };
        1000int / eff
    }

    /// The speed that `interval` divides by is not zero.
    pub open spec fn can_time(self) -> bool {
        self.speed >= 2 || (self.speed >= 1 && self.snake.dir.1 == 0)
    }

    /// A new game on a board of the given size, border included, or,
    /// without a size, on a board fitted to a terminal of size `term`.
    pub fn new(easy_mode: bool, size: Option<(u16, u16)>, term: (u16, u16)) -> (r: App)
        requires
            size matches Some(sz) ==> sz.0 >= 3 && sz.1 >= 3,
            size is None ==> App::fits(term),
        ensures
            r.wf(),
            r.frame == (match size {
                Some(sz) => Frame { pos: (1u16, 1u16), size: sz },
                None => App::fitted_frame(term),
            }),
            r.snake.body@ == seq![(3u16, 1u16), (2u16, 1u16), (1u16, 1u16)],
            r.snake.dir == (1i16, 0i16),
            r.frame.contains(r.red_apple.pos),
            r.frame.contains(r.yellow_apple.pos),
            r.speed == 10,
            r.score == 0,
            !r.game_over,
            !r.quit,
            r.easy_mode == easy_mode,
            r.fixed_size == size.is_some(),
    {
        let frame = match size {
            Some(size) => Frame { pos: (1, 1), size },
            None => Frame { pos: (1, 1), size: (term.0, term.1 - PANEL_ROWS) },
        };
        let red_apple = Apple::new(1, 1, AppleType::Red, frame);
        let yellow_apple = Apple::new(2, 2, AppleType::Yellow, frame);
        let body: Vec<(u16, u16)> = vec![(3, 1), (2, 1), (1, 1)];
        App {
            frame,
            red_apple,
            yellow_apple,
            snake: Snake { body, dir: (1, 0), frame },
            speed: 10,
            score: 0,
            game_over: false,
            quit: false,
            easy_mode,
            fixed_size: size.is_some(),
        }
    }

    /// Whether a terminal of size `term` has room for a fitted board.
    pub fn fits_terminal(term: (u16, u16)) -> (r: bool)
        ensures
            r == App::fits(term),
    {
        term.0 >= 3 && term.1 >= 3 + PANEL_ROWS
    }

    /// Fits the board to a terminal of size `term`, unless its size is
    /// fixed. When the frame changes, both apples move to fresh cells and
    /// the snake moves into the new frame, its cells unchanged.
    pub fn update_frame_size(self, term: (u16, u16)) -> (r: App)
        requires
            self.wf(),
            self.fixed_size || App::fits(term),
        ensures
            r.wf(),
            self.fixed_size || App::fitted_frame(term) == self.frame ==> r == self,
            !self.fixed_size && App::fitted_frame(term) != self.frame ==> {
                &&& r.frame == App::fitted_frame(term)
                &&& r.red_apple == (Apple { pos: r.red_apple.pos, frame: r.frame, ..self.red_apple })
                &&& r.yellow_apple == (Apple {
                    pos: r.yellow_apple.pos,
                    frame: r.frame,
                    ..self.yellow_apple
                })
                &&& r.frame.contains(r.red_apple.pos)
                &&& r.frame.contains(r.yellow_apple.pos)
                &&& r.snake.body == self.snake.body
                &&& r.snake.dir == self.snake.dir
                &&& r.snake.frame == r.frame
                &&& r.speed == self.speed
                &&& r.score == self.score
                &&& r.game_over == self.game_over
                &&& r.quit == self.quit
                &&& r.easy_mode == self.easy_mode
                &&& r.fixed_size == self.fixed_size
            },
    {
        if self.fixed_size {
            return self;
        }
        let frame = Frame { pos: (1, 1), size: (term.0, term.1 - PANEL_ROWS) };
        if frame == self.frame {
            return self;
        }
        let red_apple = Apple { pos: frame.random_point(), frame, ..self.red_apple };
        let yellow_apple = Apple { pos: frame.random_point(), frame, ..self.yellow_apple };
        App {
            frame,
            red_apple,
            yellow_apple,
            snake: Snake { frame, ..self.snake },
            ..self
        }
    }

    /// The command given by a keypress: `first` is the byte read and, after
    /// an escape, `last` is the third byte of the sequence.
    pub fn input_cmd(first: u8, last: u8) -> (r: Command)
        ensures
            r == key_command(first, last),
    {
        if first == 27 {
            match last {
                65 => Command::Down,
                66 => Command::Up,
                67 => Command::Right,
                68 => Command::Left,
                _ => Command::NoOp,
            }
        } else {
            match first {
                113 => Command::Quit,  // q
                119 => Command::Down,  // w
                115 => Command::Up,  // s
                97 => Command::Left,  // a
                100 => Command::Right,  // d
                _ => Command::NoOp,
            }
        }
    }

    /// Applies a command: quit is noted as pending, a heading is taken
    /// unless easy mode refuses a reversal.
    pub fn react_to_command(self, cmd: Command) -> (r: App)
        requires
            self.wf(),
        ensures
            r == self.steered(cmd),
            r.wf(),
    {
        let mut result = self;
        let newdir: (i16, i16) = match cmd {
            Command::Quit => {
                result.quit = true;
                return result;
            },
            Command::Up => (0, 1),
            Command::Down => (0, -1),
            Command::Left => (-1, 0),
            Command::Right => (1, 0),
            Command::NoOp => {
                return result;
            },
        };
        let dir = result.snake.dir;
        if !result.easy_mode || newdir.0 != -dir.0 || newdir.1 != -dir.1 {
            result.snake.dir = newdir;
        }
        result
    }

    /// Eats an apple under the head, if any, and ends the game if the head
    /// meets the body.
    pub fn check_collision(self) -> (r: App)
        requires
            self.wf(),
            self.no_overflow_at(self.snake.head()),
        ensures
            App::collided(self, self.snake.body@, r),
            r.wf(),
    {
        let head = self.snake.head_pos();
        let hit_red = head.0 == self.red_apple.pos.0 && head.1 == self.red_apple.pos.1;
        let hit_yellow = head.0 == self.yellow_apple.pos.0 && head.1 == self.yellow_apple.pos.1;

        let mut game_over = self.game_over;
        let mut i: usize = 1;
        while i < self.snake.body.len()
            invariant
                1 <= i <= self.snake.body@.len(),
                head == self.snake.body@[0],
                game_over == (self.game_over || exists|j: int|
                    1 <= j < i && #[trigger] self.snake.body@[j] == self.snake.body@[0]),
            decreases self.snake.body@.len() - i,
        {
            let cell = self.snake.body[i];
            if cell.0 == head.0 && cell.1 == head.1 {
                game_over = true;
            }
            i = i + 1;
        }

        let mut speed = self.speed;
        let mut score = self.score;
        let mut grow_by: u16 = 0;
        if hit_red {
            speed = speed + self.red_apple.inc_speed;
            score = score + self.red_apple.points;
            grow_by = self.red_apple.points as u16;
        }
        if hit_yellow {
            speed = speed + self.yellow_apple.inc_speed;
            score = score + self.yellow_apple.points;
            grow_by = self.yellow_apple.points as u16;
        }
        let snake = if hit_red || hit_yellow {
            self.snake.grow(grow_by)
        } else {
            self.snake
        };
        let red_apple = if hit_red && !hit_yellow {
            Apple::new(1, 1, AppleType::Red, self.frame)
        } else {
            self.red_apple
        };
        let yellow_apple = if hit_yellow {
            Apple::new(2, 2, AppleType::Yellow, self.frame)
        } else {
            self.yellow_apple
        };
        App {
            frame: self.frame,
            red_apple,
            yellow_apple,
            snake,
            speed,
            score,
            game_over,
            quit: self.quit,
            easy_mode: self.easy_mode,
            fixed_size: self.fixed_size,
        }
    }

    /// One tick of the game: apply the command, move one cell, handle
    /// collisions.
    pub fn tick(self, cmd: Command) -> (r: App)
        requires
            self.wf(),
            self.no_overflow_at(self.steered(cmd).snake.next_head()),
        ensures
            self.ticked(cmd, r),
            r.wf(),
    {
        let mut app = self.react_to_command(cmd);
        app.snake = app.snake.mv();
        app.check_collision()
    }

    /// Milliseconds between two ticks at the current speed and heading.
    pub fn tick_interval(&self) -> (r: u64)
        requires
            self.can_time(),
        ensures
            r == self.interval(),
    {
        let eff: u64 = if self.snake.dir.1 != 0 {
            (self.speed as u128 * 5 / 8) as u64
        } else {
            self.speed
        };
        1000 / eff
    }

    /// The tick gate: with `elapsed_ms` gone since the last tick, either
    /// wait out the rest of the interval or take the next tick now.
    pub fn wait_next_turn(&self, elapsed_ms: u64) -> (r: Turn)
        requires
            self.can_time(),
        ensures
            r == (if elapsed_ms < self.interval() {
                Turn::Wait((self.interval() - elapsed_ms) as u64)
            } else {
                Turn::Go
            }),
    {
        let interval = self.tick_interval();
        if elapsed_ms < interval {
            Turn::Wait(interval - elapsed_ms)
        } else {
            Turn::Go
        }
    }

    /// Answers the quit prompt with `key`: the second result says whether
    /// the game ends; otherwise the pending quit is cleared and play goes on.
    pub fn after_quit_prompt(self, key: u8) -> (r: (App, bool))
        ensures
            r.1 == (key == 121 || key == 89),
            r.1 ==> r.0 == self,
            !r.1 ==> r.0 == (App { quit: false, ..self }),
    {
        if quit_confirmed(key) {
            (self, true)
        } else {
            (App { quit: false, ..self }, false)
        }
    }

    /// The frame of the score panel, just below the board and as wide.
    pub fn info_frame(&self) -> (r: Frame)
        requires
            self.frame.pos.1 + self.frame.size.1 <= u16::MAX,
        ensures
            r.pos == (self.frame.pos.0, (self.frame.pos.1 + self.frame.size.1) as u16),
            r.size == (self.frame.size.0, PANEL_ROWS),
    {
        Frame {
            pos: (self.frame.pos.0, self.frame.pos.1 + self.frame.size.1),
            size: (self.frame.size.0, PANEL_ROWS),
        }
    }
}

/// Whether the key pressed at the quit prompt confirms quitting: `y` or `Y`.
pub fn quit_confirmed(key: u8) -> (r: bool)
    ensures
        r == (key == 121 || key == 89),
{
    key == 121 || key == 89
}


/// Over a tick neither score nor speed goes down: speed rises by exactly
/// the increment of each apple that lay under the new head, and score by
/// its points.
pub proof fn lemma_tick_monotone(a: App, cmd: Command, r: App)
    requires
        a.wf(),
        a.ticked(cmd, r),
    ensures
        r.score >= a.score,
        r.speed >= a.speed,
        ({
            let head = a.steered(cmd).snake.next_head();
            &&& r.speed == a.speed + (if head == a.red_apple.pos {
                a.red_apple.inc_speed
            } else {
                0
            }) + (if head == a.yellow_apple.pos {
                a.yellow_apple.inc_speed
            } else {
                0
            })
            &&& r.score == a.score + (if head == a.red_apple.pos {
                a.red_apple.points
            } else {
                0
            }) + (if head == a.yellow_apple.pos {
                a.yellow_apple.points
            } else {
                0
            })
        }),
{
    let s = a.steered(cmd);
    assert(moved(s.snake.body@, s.snake.next_head())[0] == s.snake.next_head());
}

/// In easy mode a new heading is refused exactly when it is the reverse of
/// the current one; in hard mode it is always taken.
pub proof fn lemma_easy_turns(dc: (i16, i16), dn: (i16, i16))
    requires
        is_direction(dc),
        is_direction(dn),
    ensures
        (steer(dc, dn, true) != dn) <==> (dn.0 == -dc.0 && dn.1 == -dc.1),
        steer(dc, dn, false) == dn,
{
}

/// When the new head lands on a later segment of the body the game is over
/// after that tick, and any apple under the head still counts.
pub proof fn lemma_self_bite(a: App, cmd: Command, r: App)
    requires
        a.wf(),
        a.ticked(cmd, r),
        ({
            let s = a.steered(cmd);
            bites_itself(moved(s.snake.body@, s.snake.next_head()))
        }),
    ensures
        r.game_over,
        r.score == a.score + (if a.steered(cmd).snake.next_head() == a.red_apple.pos {
            a.red_apple.points
        } else {
            0
        }) + (if a.steered(cmd).snake.next_head() == a.yellow_apple.pos {
            a.yellow_apple.points
        } else {
            0
        }),
{
    let s = a.steered(cmd);
    assert(moved(s.snake.body@, s.snake.next_head())[0] == s.snake.next_head());
}

} // verus!
