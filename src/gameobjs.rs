//! The snake and the apples it eats.

use vstd::prelude::*;
use crate::frame::Frame;

verus! {

/// One of the four unit steps; the second coordinate grows downwards.
pub open spec fn is_direction(d: (i16, i16)) -> bool {
    d == (1i16, 0i16) || d == (-1i16, 0i16) || d == (0i16, 1i16) || d == (0i16, -1i16)
}

/// A coordinate after one step, brought back into `1..=m`: below 1 it
/// becomes `m`, above `m` it becomes 1.
pub open spec fn wrap(c: int, m: int) -> int {
    if c < 1 {
        m
    } else if c > m {
        1
    } else {
        c
    }
}

/// The body after a move: the new head in front, the last segment gone.
pub open spec fn moved(body: Seq<(u16, u16)>, head: (u16, u16)) -> Seq<(u16, u16)> {
    seq![head] + body.drop_last()
}

/// The body after growing by `k`: `k` copies of the tail appended.
pub open spec fn grown(body: Seq<(u16, u16)>, k: nat) -> Seq<(u16, u16)> {
    body + Seq::new(k, |i: int| body.last())
}

/// The body after growing once by each amount of `ks`, in order, with no
/// move in between.
pub open spec fn grown_all(body: Seq<(u16, u16)>, ks: Seq<u16>) -> Seq<(u16, u16)>
    decreases ks.len(),
{
    if ks.len() == 0 {
        body
    } else {
        grown(grown_all(body, ks.drop_last()), ks.last() as nat)
    }
}

pub open spec fn total(ks: Seq<u16>) -> int
    decreases ks.len(),
{
    if ks.len() == 0 {
        0
    } else {
        total(ks.drop_last()) + ks.last()
    }
}

/// The two kinds of apple: a red one is worth one point and one unit of
/// speed, a yellow one two of each.
#[derive(Clone, Copy, Debug, PartialEq, Eq, Structural)]
pub enum AppleType {
    Red,
    Yellow,
}

/// An apple on the field, with what eating it is worth.
#[derive(Clone, Copy, Debug)]
pub struct Apple {
    pub pos: (u16, u16),
    pub points: u64,
    pub inc_speed: u64,
    pub apple_type: AppleType,
    pub frame: Frame,
}

impl Apple {
    /// Points and speed increment are those fixed for the apple's kind.
    pub open spec fn tier_ok(self) -> bool {
        match self.apple_type {
            AppleType::Red => self.points == 1 && self.inc_speed == 1,
            AppleType::Yellow => self.points == 2 && self.inc_speed == 2,
        }
    }

    /// An apple at a random interior cell of `frame`.
    pub fn new(points: u64, speed: u64, apple_type: AppleType, frame: Frame) -> (r: Apple)
        requires
            frame.has_field(),
        ensures
            r.points == points,
            r.inc_speed == speed,
            r.apple_type == apple_type,
            r.frame == frame,
            frame.contains(r.pos),
    {
        let pos = frame.random_point();
        Apple { pos, points, inc_speed: speed, apple_type, frame }
    }
}

/// The snake: its segments, head first, its heading and the frame it
/// moves in.
#[derive(Debug)]
pub struct Snake {
    pub body: Vec<(u16, u16)>,
    pub dir: (i16, i16),
    pub frame: Frame,
}

impl Snake {
    pub open spec fn wf(self) -> bool {
        &&& self.body@.len() >= 1
        &&& is_direction(self.dir)
        &&& self.frame.has_field()
    }

    pub open spec fn head(self) -> (u16, u16) {
        self.body@[0]
    }

    /// The cell the head moves to: one step along `dir`, wrapped on each
    /// axis into the interior of the frame.
    pub open spec fn next_head(self) -> (u16, u16) {
        (
            wrap(self.head().0 + self.dir.0, self.frame.field_w()) as u16,
            wrap(self.head().1 + self.dir.1, self.frame.field_h()) as u16,
        )
    }

    /// The snake one step further: the head advances and the tail follows.
    pub fn mv(&self) -> (r: Snake)
        requires
            self.wf(),
        ensures
            r.body@ == moved(self.body@, self.next_head()),
            r.dir == self.dir,
            r.frame == self.frame,
    {
        let (w, h) = self.frame.field();
        let head = self.body[0];
        let new_x = wrap_coord(head.0 as i32 + self.dir.0 as i32, w);
        let new_y = wrap_coord(head.1 as i32 + self.dir.1 as i32, h);
        let mut body = copy_cells(&self.body);
        body.insert(0, (new_x, new_y));
        body.pop();
        Snake { body, dir: self.dir, frame: self.frame }
    }

    pub fn head_pos(&self) -> (r: (u16, u16))
        requires
            self.body@.len() >= 1,
        ensures
            r == self.head(),
    {
        self.body[0]
    }

    /// The snake with `len` more segments, all placed on its tail cell.
    pub fn grow(&self, len: u16) -> (r: Snake)
        requires
            self.body@.len() >= 1,
        ensures
            r.body@ == grown(self.body@, len as nat),
            r.dir == self.dir,
            r.frame == self.frame,
    {
        let mut body = copy_cells(&self.body);
        assert(body@ =~= grown(self.body@, 0));
        let last_pos = self.body[self.body.len() - 1];
        let mut i: u16 = 0;
        while i < len
            invariant
                i <= len,
                body@ == grown(self.body@, i as nat),
                last_pos == self.body@.last(),
            decreases len - i,
        {
            body.push(last_pos);
            i = i + 1;
            assert(body@ =~= grown(self.body@, i as nat));
        }
        Snake { body, dir: self.dir, frame: self.frame }
    }
}

/// Leaving the interior across an edge re-enters it at the opposite edge of
/// the same axis, and the other coordinate stays as it was.
pub proof fn lemma_wraparound(s: Snake)
    requires
        s.wf(),
        s.frame.contains(s.head()),
    ensures
        s.dir == (1i16, 0i16) && s.head().0 == s.frame.field_w() ==> s.next_head() == (
            1u16,
            s.head().1,
        ),
        s.dir == (-1i16, 0i16) && s.head().0 == 1 ==> s.next_head() == (
            s.frame.field_w() as u16,
            s.head().1,
        ),
        s.dir == (0i16, 1i16) && s.head().1 == s.frame.field_h() ==> s.next_head() == (
            s.head().0,
            1u16,
        ),
        s.dir == (0i16, -1i16) && s.head().1 == 1 ==> s.next_head() == (
            s.head().0,
            s.frame.field_h() as u16,
        ),
{
}

/// Growing by each of `ks` without moving adds their sum to the length;
/// a move afterwards puts the head on the next cell and keeps the length.
pub proof fn lemma_growth(s: Snake, ks: Seq<u16>)
    requires
        s.wf(),
    ensures
        grown_all(s.body@, ks).len() == s.body@.len() + total(ks),
        moved(grown_all(s.body@, ks), s.next_head()).len() == grown_all(s.body@, ks).len(),
        moved(grown_all(s.body@, ks), s.next_head())[0] == s.next_head(),
    decreases ks.len(),
{
    if ks.len() > 0 {
        lemma_growth(s, ks.drop_last());
    }
}

/// A copy of a list of cells.
fn copy_cells(v: &Vec<(u16, u16)>) -> (r: Vec<(u16, u16)>)
    ensures
        r@ == v@,
{
    let mut r: Vec<(u16, u16)> = Vec::new();
    let mut i: usize = 0;
    while i < v.len()
        invariant
            i <= v@.len(),
            r@ == v@.subrange(0, i as int),
        decreases v@.len() - i,
    {
        r.push(v[i]);
        i = i + 1;
        assert(r@ =~= v@.subrange(0, i as int));
    }
    assert(r@ =~= v@);
    r
}

/// `c` wrapped into `1..=m`.
fn wrap_coord(c: i32, m: u16) -> (r: u16)
    requires
        -1 <= c <= u16::MAX + 1,
        m >= 1,
    ensures
        r == wrap(c as int, m as int),
{
    if c < 1 {
        m
    } else if c > m as i32 {
        1
    } else {
        c as u16
    }
}

} // verus!
