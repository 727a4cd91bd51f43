//! The leaderboard: last and best score for each of the four game modes.

use vstd::prelude::*;
use vstd::string::StringExecFns;
use crate::menu::{difficulty_name, push_size_label, size_label, Difficulty, MenuAction, FIXED_BOARD};

verus! {

/// The last score of a mode and the best one so far.
#[derive(Clone, Copy, Debug, PartialEq, Eq, Structural)]
pub struct LBScore {
    pub last: u64,
    pub best: u64,
}

/// The record of one mode: its difficulty and its board size, `None` for a
/// board that fills the terminal.
#[derive(Clone, Copy, Debug)]
pub struct Score {
    pub score: LBScore,
    pub difficulty: Difficulty,
    pub size: Option<(u16, u16)>,
}

/// The entry `e` is the record of the mode with difficulty `d`, on a board
/// of fixed size when `fixed`.
pub open spec fn is_mode(e: Score, d: Difficulty, fixed: bool) -> bool {
    e.difficulty == d && e.size.is_some() == fixed
}

/// Index of the first entry of `s` for the given mode, or 4 when none is.
pub open spec fn slot(s: Seq<Score>, d: Difficulty, fixed: bool) -> int {
    if is_mode(s[0], d, fixed) {
        0
    } else if is_mode(s[1], d, fixed) {
        1
    } else if is_mode(s[2], d, fixed) {
        2
    } else if is_mode(s[3], d, fixed) {
        3
    } else {
        4
    }
}

/// Every mode has an entry among the four.
pub open spec fn covers_modes(s: Seq<Score>) -> bool {
    &&& s.len() == 4
    &&& forall|d: Difficulty, fixed: bool| #[trigger] slot(s, d, fixed) < 4
}

/// The last and best score recorded for a mode.
pub open spec fn record(s: Seq<Score>, d: Difficulty, fixed: bool) -> LBScore {
    s[slot(s, d, fixed)].score
}

/// The entries after a game of the given mode ended with `score`: that
/// mode's last score becomes `score` and its best the larger of the two.
pub open spec fn updated(s: Seq<Score>, score: u64, d: Difficulty, fixed: bool) -> Seq<Score> {
    let i = slot(s, d, fixed);
    let best = if s[i].score.best >= score {
        s[i].score.best
    } else {
        score
    };
    s.update(i, Score { score: LBScore { last: score, best }, ..s[i] })
}

/// A label for a mode, as `Easy Full` or `Hard 80x25`.
pub open spec fn mode_label(e: Score) -> Seq<char> {
    difficulty_name(e.difficulty) + seq![' '] + size_label(e.size)
}

impl Score {
    pub fn label(&self) -> (r: String)
        ensures
            r@ == mode_label(*self),
    {
        let mut r = self.difficulty.to_string();
        r.append(" ");
        push_size_label(&mut r, self.size);
        proof {
            reveal_strlit(" ");
        }
        assert(r@ =~= mode_label(*self));
        r
    }
}

/// The four records, one per mode.
#[derive(Clone, Copy, Debug)]
pub struct ScoreBoard {
    pub scores: [Score; 4],
}

impl View for ScoreBoard {
    type V = Seq<Score>;

    open spec fn view(&self) -> Seq<Score> {
        self.scores@
    }
}

impl ScoreBoard {
    pub open spec fn wf(self) -> bool {
        covers_modes(self@)
    }

    /// A board with every score at zero.
    pub fn new() -> (r: ScoreBoard)
        ensures
            r.wf(),
            r@ == seq![
                Score { score: LBScore { last: 0, best: 0 }, difficulty: Difficulty::Easy, size: None },
                Score { score: LBScore { last: 0, best: 0 }, difficulty: Difficulty::Hard, size: None },
                Score {
                    score: LBScore { last: 0, best: 0 },
                    difficulty: Difficulty::Easy,
                    size: Some(FIXED_BOARD),
                },
                Score {
                    score: LBScore { last: 0, best: 0 },
                    difficulty: Difficulty::Hard,
                    size: Some(FIXED_BOARD),
                },
            ],
            forall|d: Difficulty, fixed: bool|
                #[trigger] record(r@, d, fixed) == (LBScore { last: 0, best: 0 }),
    {
        let zero = LBScore { last: 0, best: 0 };
        let r = ScoreBoard {
            scores: [
                Score { score: zero, difficulty: Difficulty::Easy, size: None },
                Score { score: zero, difficulty: Difficulty::Hard, size: None },
                Score { score: zero, difficulty: Difficulty::Easy, size: Some(FIXED_BOARD) },
                Score { score: zero, difficulty: Difficulty::Hard, size: Some(FIXED_BOARD) },
            ],
        };
        assert forall|d: Difficulty, fixed: bool| #[trigger] slot(r@, d, fixed) < 4 by {
            match d {
                Difficulty::Easy => {},
                Difficulty::Hard => {},
            }
        }
        r
    }

    /// The board checked from four entries read from elsewhere: present
    /// exactly when every mode has an entry, and then with those entries.
    pub fn from_scores(scores: [Score; 4]) -> (r: Option<ScoreBoard>)
        ensures
            r is Some <==> covers_modes(scores@),
            r matches Some(b) ==> b@ == scores@,
    {
        let b = ScoreBoard { scores };
        if b.has_slot(Difficulty::Easy, false) && b.has_slot(Difficulty::Hard, false)
            && b.has_slot(Difficulty::Easy, true) && b.has_slot(Difficulty::Hard, true) {
            assert forall|d: Difficulty, fixed: bool| #[trigger] slot(b@, d, fixed) < 4 by {
                match d {
                    Difficulty::Easy => {},
                    Difficulty::Hard => {},
                }
            }
            Some(b)
        } else {
            None
        }
    }

    /// Index of the first entry of the given mode, or 4 when none is.
    fn find(&self, d: Difficulty, fixed: bool) -> (r: usize)
        ensures
            r == slot(self@, d, fixed),
    {
        let mut i: usize = 0;
        while i < 4
            invariant
                i <= 4,
                forall|j: int| 0 <= j < i ==> !is_mode(#[trigger] self@[j], d, fixed),
            decreases 4 - i,
        {
            let e = self.scores[i];
            if e.difficulty == d && e.size.is_some() == fixed {
                return i;
            }
            i = i + 1;
        }
        4
    }

    fn has_slot(&self, d: Difficulty, fixed: bool) -> (r: bool)
        ensures
            r == (slot(self@, d, fixed) < 4),
    {
        self.find(d, fixed) < 4
    }

    /// Records the end of a game of the mode `choice` with final `score`.
    pub fn update(self, score: u64, choice: MenuAction) -> (r: ScoreBoard)
        requires
            self.wf(),
            choice is StartGame,
        ensures
            r.wf(),
            r@ == (match choice {
                MenuAction::StartGame(d, size) => updated(self@, score, d, size.is_some()),
                MenuAction::Quit => self@,
            }),
    {
        let (difficulty, size) = match choice {
            MenuAction::StartGame(difficulty, size) => (difficulty, size),
            MenuAction::Quit => (Difficulty::Easy, None),
        };
        let fixed = size.is_some();
        let i = self.find(difficulty, fixed);
        assert(slot(self@, difficulty, fixed) < 4);
        let mut new_scores = self.scores;
        let old = new_scores[i];
        let best = if old.score.best >= score {
            old.score.best
        } else {
            score
        };
        new_scores[i] = Score { score: LBScore { last: score, best }, ..old };
        let r = ScoreBoard { scores: new_scores };
        assert(r@ =~= updated(self@, score, difficulty, fixed));
        assert forall|d: Difficulty, f: bool| #[trigger] slot(r@, d, f) < 4 by {
            assert(slot(self@, d, f) < 4);
            assert(is_mode(r@[slot(self@, d, f)], d, f));
        }
        r
    }
}


/// Recording the same score twice for a mode changes nothing the second
/// time: the best score stays as the first update left it.
pub proof fn lemma_update_idempotent(s: Seq<Score>, score: u64, d: Difficulty, fixed: bool)
    requires
        covers_modes(s),
    ensures
        record(updated(s, score, d, fixed), d, fixed).best >= score,
        record(updated(updated(s, score, d, fixed), score, d, fixed), d, fixed).best == record(
            updated(s, score, d, fixed),
            d,
            fixed,
        ).best,
        updated(updated(s, score, d, fixed), score, d, fixed) == updated(s, score, d, fixed),
{
    assert(slot(s, d, fixed) < 4);
    let s1 = updated(s, score, d, fixed);
    assert(slot(s1, d, fixed) == slot(s, d, fixed));
    assert(updated(s1, score, d, fixed) =~= s1);
}

} // verus!
