//! The bordered rectangle that every game object is placed in.

use vstd::prelude::*;

verus! {

/// Relies on rand::random::<u16>: a number drawn from the thread's random
/// generator; nothing is promised about which one.
#[verifier::external_body]
fn random_u16() -> (r: u16) {
    rand::random::<u16>()
}

/// A rectangle on the terminal: `pos` is its top-left corner and `size` its
/// width and height, border included.
#[derive(Clone, Copy, Debug)]
pub struct Frame {
    pub pos: (u16, u16),
    pub size: (u16, u16),
}

impl PartialEq for Frame {
    fn eq(&self, o: &Frame) -> (r: bool)
        ensures
            r == (self.pos == o.pos && self.size == o.size),
    {
        self.pos.0 == o.pos.0 && self.pos.1 == o.pos.1 && self.size.0 == o.size.0 && self.size.1
            == o.size.1
    }
}

impl vstd::std_specs::cmp::PartialEqSpecImpl for Frame {
    open spec fn obeys_eq_spec() -> bool {
        true
    }

    open spec fn eq_spec(&self, o: &Frame) -> bool {
        self.pos == o.pos && self.size == o.size
    }
}

impl Eq for Frame {
}

impl Frame {
    /// Width of the interior, the columns a game object may stand on.
    pub open spec fn field_w(self) -> int {
        self.size.0 - self.pos.0 - 1
    }

    /// Height of the interior, the rows a game object may stand on.
    pub open spec fn field_h(self) -> int {
        self.size.1 - self.pos.1 - 1
    }

    /// The interior extent can be computed without going below zero.
    pub open spec fn spans(self) -> bool {
        self.pos.0 < self.size.0 && self.pos.1 < self.size.1
    }

    /// The interior holds at least one cell on each axis.
    pub open spec fn has_field(self) -> bool {
        self.field_w() >= 1 && self.field_h() >= 1
    }

    /// `p` is an interior cell; interior coordinates start at 1.
    pub open spec fn contains(self, p: (u16, u16)) -> bool {
        1 <= p.0 <= self.field_w() && 1 <= p.1 <= self.field_h()
    }

    pub fn new(pos: (u16, u16), size: (u16, u16)) -> (r: Frame)
        ensures
            r.pos == pos,
            r.size == size,
    {
        Frame { pos, size }
    }

    /// The interior extent: the size less the origin offset and one border cell.
    pub fn field(&self) -> (r: (u16, u16))
        requires
            self.spans(),
        ensures
            r.0 == self.field_w(),
            r.1 == self.field_h(),
    {
        let (x, y) = self.pos;
        let (w, h) = self.size;
        (w - x - 1, h - y - 1)
    }

    /// Absolute terminal coordinates of the interior cell `(x, y)`.
    pub fn goto(&self, x: u16, y: u16) -> (r: (u16, u16))
        requires
            self.pos.0 + x <= u16::MAX,
            self.pos.1 + y <= u16::MAX,
        ensures
            r.0 == self.pos.0 + x,
            r.1 == self.pos.1 + y,
    {
        (self.pos.0 + x, self.pos.1 + y)
    }

    /// The interior cell that two drawn numbers select: each is taken modulo
    /// the interior extent on its axis, plus one.
    pub fn point_in_field(&self, rx: u16, ry: u16) -> (r: (u16, u16))
        requires
            self.has_field(),
        ensures
            r.0 == rx % (self.field_w() as u16) + 1,
            r.1 == ry % (self.field_h() as u16) + 1,
            self.contains(r),
    {
        let (w, h) = self.field();
        (rx % w + 1, ry % h + 1)
    }

    /// A random interior cell.
    pub fn random_point(&self) -> (r: (u16, u16))
        requires
            self.has_field(),
        ensures
            self.contains(r),
    {
        let rx = random_u16();
        let ry = random_u16();
        self.point_in_field(rx, ry)
    }

    /// Where a block of `lines` rows, each `width` columns wide, starts so
    /// that it stands centred in this frame.
    pub fn centered_origin(&self, width: u16, lines: u16) -> (r: (u16, u16))
        requires
            width <= self.size.0,
            lines <= self.size.1,
        ensures
            r.0 == (self.size.0 - width) / 2,
            r.1 == (self.size.1 - lines) / 2,
    {
        ((self.size.0 - width) / 2, (self.size.1 - lines) / 2)
    }
}

} // verus!
