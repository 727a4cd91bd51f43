use snake::menu::{action_for_key, push_decimal, Difficulty, MenuAction, FIXED_BOARD};
use snake::scores::{LBScore, Score, ScoreBoard};

fn start(d: Difficulty, size: Option<(u16, u16)>) -> MenuAction {
    MenuAction::StartGame(d, size)
}

fn record(b: &ScoreBoard, d: Difficulty, fixed: bool) -> LBScore {
    b.scores.iter().find(|e| e.difficulty == d && e.size.is_some() == fixed).unwrap().score
}

#[test]
fn menu_keys() {
    assert!(action_for_key(b'1') == Some(start(Difficulty::Easy, None)));
    assert!(action_for_key(b'2') == Some(start(Difficulty::Hard, None)));
    assert!(action_for_key(b'3') == Some(start(Difficulty::Easy, Some((80, 25)))));
    assert!(action_for_key(b'4') == Some(start(Difficulty::Hard, Some((80, 25)))));
    assert!(action_for_key(b'q') == Some(MenuAction::Quit));
    assert!(action_for_key(b'5').is_none());
    assert!(action_for_key(b'Q').is_none());
    assert!(action_for_key(0).is_none());
}

#[test]
fn menu_action_equality() {
    assert!(start(Difficulty::Easy, None) != start(Difficulty::Hard, None));
    assert!(start(Difficulty::Easy, None) != start(Difficulty::Easy, Some((80, 25))));
    assert!(start(Difficulty::Easy, Some((80, 25))) != start(Difficulty::Easy, Some((80, 24))));
    assert!(start(Difficulty::Easy, None) != MenuAction::Quit);
    assert!(MenuAction::Quit == MenuAction::Quit);
}

#[test]
fn labels() {
    assert_eq!(Difficulty::Easy.to_string(), "Easy");
    assert_eq!(Difficulty::Hard.to_string(), "Hard");
    assert_eq!(MenuAction::Quit.to_string(), "Quit");
    assert_eq!(start(Difficulty::Hard, Some((80, 25))).to_string(), "Start Hard mode (80x25)");
    assert_eq!(start(Difficulty::Easy, None).to_string(), "Start Easy mode (Full)");
    let e = Score { score: LBScore { last: 3, best: 9 }, difficulty: Difficulty::Easy, size: Some(FIXED_BOARD) };
    assert_eq!(e.label(), "Easy 80x25");
    let h = Score { score: LBScore { last: 3, best: 9 }, difficulty: Difficulty::Hard, size: None };
    assert_eq!(h.label(), "Hard Full");
}

#[test]
fn decimal_digits() {
    for n in [0u16, 7, 10, 99, 100, 4096, 65535] {
        let mut s = String::from(">");
        push_decimal(&mut s, n);
        assert_eq!(s, format!(">{}", n));
    }
}

#[test]
fn new_board_is_zeroed() {
    let b = ScoreBoard::new();
    for d in [Difficulty::Easy, Difficulty::Hard] {
        for fixed in [false, true] {
            assert_eq!(record(&b, d, fixed), LBScore { last: 0, best: 0 });
        }
    }
    assert_eq!(b.scores[2].size, Some((80, 25)));
}

#[test]
fn update_sets_last_and_keeps_best() {
    let b = ScoreBoard::new().update(12, start(Difficulty::Hard, None));
    assert_eq!(record(&b, Difficulty::Hard, false), LBScore { last: 12, best: 12 });
    assert_eq!(record(&b, Difficulty::Easy, false), LBScore { last: 0, best: 0 });
    assert_eq!(record(&b, Difficulty::Hard, true), LBScore { last: 0, best: 0 });
    let b = b.update(5, start(Difficulty::Hard, None));
    assert_eq!(record(&b, Difficulty::Hard, false), LBScore { last: 5, best: 12 });
    let b = b.update(20, start(Difficulty::Hard, None));
    assert_eq!(record(&b, Difficulty::Hard, false), LBScore { last: 20, best: 20 });
}

#[test]
fn update_matches_any_fixed_size() {
    let b = ScoreBoard::new().update(4, start(Difficulty::Easy, Some((30, 30))));
    assert_eq!(record(&b, Difficulty::Easy, true), LBScore { last: 4, best: 4 });
    assert_eq!(b.scores[2].size, Some((80, 25)));
}

#[test]
fn update_twice_is_idempotent() {
    let b = ScoreBoard::new().update(9, start(Difficulty::Easy, None)).update(3, start(Difficulty::Easy, None));
    let once = b.update(7, start(Difficulty::Easy, None));
    let twice = once.update(7, start(Difficulty::Easy, None));
    assert_eq!(record(&once, Difficulty::Easy, false), LBScore { last: 7, best: 9 });
    assert_eq!(record(&twice, Difficulty::Easy, false), record(&once, Difficulty::Easy, false));
}

#[test]
fn entries_round_trip() {
    let b = ScoreBoard::new().update(9, start(Difficulty::Easy, None)).update(4, start(Difficulty::Hard, Some((80, 25))));
    let back = ScoreBoard::from_scores(b.scores).unwrap();
    for d in [Difficulty::Easy, Difficulty::Hard] {
        for fixed in [false, true] {
            assert_eq!(record(&back, d, fixed), record(&b, d, fixed));
        }
    }
}

#[test]
fn entries_in_any_order_are_accepted() {
    let mut s = ScoreBoard::new().scores;
    s.reverse();
    let b = ScoreBoard::from_scores(s).unwrap().update(6, start(Difficulty::Easy, None));
    assert_eq!(record(&b, Difficulty::Easy, false), LBScore { last: 6, best: 6 });
    assert_eq!(b.scores[3].score, LBScore { last: 6, best: 6 });
}

#[test]
fn entries_missing_a_mode_are_refused() {
    let mut s = ScoreBoard::new().scores;
    s[3].difficulty = Difficulty::Easy;
    assert!(ScoreBoard::from_scores(s).is_none());
    let mut t = ScoreBoard::new().scores;
    t[0].size = Some((80, 25));
    assert!(ScoreBoard::from_scores(t).is_none());
}
