//! The main menu: the game modes on offer and the key that picks each.

use vstd::prelude::*;
use vstd::string::StringExecFns;

verus! {

/// Easy mode refuses turns straight back; hard mode takes every turn.
#[derive(Clone, Copy, Debug, PartialEq, Eq, Structural)]
pub enum Difficulty {
    Easy,
    Hard,
}

/// What the player picked in the menu: a game of some difficulty, on a
/// board of fixed size or one that fills the terminal (`None`), or quitting.
#[derive(Clone, Copy, Debug)]
pub enum MenuAction {
    StartGame(Difficulty, Option<(u16, u16)>),
    Quit,
}

impl PartialEq for MenuAction {
    fn eq(&self, o: &MenuAction) -> (r: bool)
        ensures
            r == (*self == *o),
    {
        match (self, o) {
            (MenuAction::StartGame(d1, s1), MenuAction::StartGame(d2, s2)) => {
                *d1 == *d2 && match (s1, s2) {
                    (Some(a), Some(b)) => a.0 == b.0 && a.1 == b.1,
                    (None, None) => true,
                    _ => false,
                }
            },
            (MenuAction::Quit, MenuAction::Quit) => true,
            _ => false,
        }
    }
}

impl vstd::std_specs::cmp::PartialEqSpecImpl for MenuAction {
    open spec fn obeys_eq_spec() -> bool {
        true
    }

    open spec fn eq_spec(&self, o: &MenuAction) -> bool {
        *self == *o
    }
}

impl Eq for MenuAction {
}

/// Size of the board in the fixed-size modes, border included.
pub const FIXED_BOARD: (u16, u16) = (80, 25);

/// The action that a key picks in the menu, if it picks one:
/// `1` to `4` start a game, `q` quits.
pub open spec fn key_action(key: u8) -> Option<MenuAction> {
    if key == 49 {
        Some(MenuAction::StartGame(Difficulty::Easy, None))
    } else if key == 50 {
        Some(MenuAction::StartGame(Difficulty::Hard, None))
    } else if key == 51 {
        Some(MenuAction::StartGame(Difficulty::Easy, Some(FIXED_BOARD)))
    } else if key == 52 {
        Some(MenuAction::StartGame(Difficulty::Hard, Some(FIXED_BOARD)))
    } else if key == 113 {  // q
        Some(MenuAction::Quit)
    } else {
        None
    }
}

/// The menu's answer to a key; other keys are ignored.
pub fn action_for_key(key: u8) -> (r: Option<MenuAction>)
    ensures
        r == key_action(key),
{
    match key {
        49 => Some(MenuAction::StartGame(Difficulty::Easy, None)),
        50 => Some(MenuAction::StartGame(Difficulty::Hard, None)),
        51 => Some(MenuAction::StartGame(Difficulty::Easy, Some(FIXED_BOARD))),
        52 => Some(MenuAction::StartGame(Difficulty::Hard, Some(FIXED_BOARD))),
        113 => Some(MenuAction::Quit),
        _ => None,
    }
}

/// The decimal digit `d` as a character.
pub open spec fn digit_char(d: nat) -> char {
    seq!['0', '1', '2', '3', '4', '5', '6', '7', '8', '9'][d as int]
}

/// `n` written in decimal, without leading zeros.
pub open spec fn decimal(n: nat) -> Seq<char>
    decreases n,
{
    if n < 10 {
        seq![digit_char(n)]
    } else {
        decimal(n / 10) + seq![digit_char(n % 10)]
    }
}

pub open spec fn difficulty_name(d: Difficulty) -> Seq<char> {
    match d {
        Difficulty::Easy => seq!['E', 'a', 's', 'y'],
        Difficulty::Hard => seq!['H', 'a', 'r', 'd'],
    }
}

/// A board size as `WxH`, or `Full` for a board that fills the terminal.
pub open spec fn size_label(size: Option<(u16, u16)>) -> Seq<char> {
    match size {
        Some(sz) => decimal(sz.0 as nat) + seq!['x'] + decimal(sz.1 as nat),
        None => seq!['F', 'u', 'l', 'l'],
    }
}

pub open spec fn action_label(a: MenuAction) -> Seq<char> {
    match a {
        MenuAction::StartGame(d, size) => seq!['S', 't', 'a', 'r', 't', ' '] + difficulty_name(d)
            + seq![' ', 'm', 'o', 'd', 'e', ' ', '('] + size_label(size) + seq![')'],
        MenuAction::Quit => seq!['Q', 'u', 'i', 't'],
    }
}

/// Appends the decimal digit `d`.
fn push_digit(s: &mut String, d: u16)
    requires
        d < 10,
    ensures
        final(s)@ == old(s)@ + seq![digit_char(d as nat)],
{
    let t: &str = match d {
        0 => "0",
        1 => "1",
        2 => "2",
        3 => "3",
        4 => "4",
        5 => "5",
        6 => "6",
        7 => "7",
        8 => "8",
        _ => "9",
    };
    proof {
        reveal_strlit("0");
        reveal_strlit("1");
        reveal_strlit("2");
        reveal_strlit("3");
        reveal_strlit("4");
        reveal_strlit("5");
        reveal_strlit("6");
        reveal_strlit("7");
        reveal_strlit("8");
        reveal_strlit("9");
    }
    s.append(t);
}

/// Appends `n` in decimal.
pub fn push_decimal(s: &mut String, n: u16)
    ensures
        final(s)@ == old(s)@ + decimal(n as nat),
    decreases n,
{
    if n >= 10 {
        push_decimal(s, n / 10);
    }
    push_digit(s, n % 10);
    assert(final(s)@ =~= old(s)@ + decimal(n as nat));
}

impl Difficulty {
    pub fn to_string(&self) -> (r: String)
        ensures
            r@ == difficulty_name(*self),
    {
        match self {
            Difficulty::Easy => {
                let r = String::from_str("Easy");
                proof {
                    reveal_strlit("Easy");
                }
                assert(r@ =~= difficulty_name(*self));
                r
            },
            Difficulty::Hard => {
                let r = String::from_str("Hard");
                proof {
                    reveal_strlit("Hard");
                }
                assert(r@ =~= difficulty_name(*self));
                r
            },
        }
    }
}

/// Appends the label of a board size.
pub fn push_size_label(s: &mut String, size: Option<(u16, u16)>)
    ensures
        final(s)@ == old(s)@ + size_label(size),
{
    match size {
        Some((w, h)) => {
            push_decimal(s, w);
            s.append("x");
            push_decimal(s, h);
            proof {
                reveal_strlit("x");
            }
        },
        None => {
            s.append("Full");
            proof {
                reveal_strlit("Full");
            }
        },
    }
    assert(final(s)@ =~= old(s)@ + size_label(size));
}

impl MenuAction {
    pub fn to_string(&self) -> (r: String)
        ensures
            r@ == action_label(*self),
    {
        match self {
            MenuAction::StartGame(difficulty, size) => {
                let mut r = String::from_str("Start ");
                let name = difficulty.to_string();
                r.append(name.as_str());
                r.append(" mode (");
                push_size_label(&mut r, *size);
                r.append(")");
                proof {
                    reveal_strlit("Start ");
                    reveal_strlit(" mode (");
                    reveal_strlit(")");
                }
                assert(r@ =~= action_label(*self));
                r
            },
            MenuAction::Quit => {
                let r = String::from_str("Quit");
                proof {
                    reveal_strlit("Quit");
                }
                assert(r@ =~= action_label(*self));
                r
            },
        }
    }
}

} // verus!
