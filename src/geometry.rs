//! Where the outline stands: its corners, width and height, from its centre,
//! its paddings and the terminal's column count.
use vstd::prelude::*;

verus! {

/// `a - b`, or zero where that would be negative.
pub open spec fn sat_sub(a: int, b: int) -> int {
    if a > b {
        a - b
    } else {
        0
    }
}

pub open spec fn min(a: int, b: int) -> int {
    if a <= b {
        a
    } else {
        b
    }
}

/// The outline around `centre`, `horz_pad` cells to each side and `vert_pad`
/// cells above and below.
#[derive(Clone, Copy, Debug)]
pub struct TermBox {
    pub centre: (u16, u16),
    pub horz_pad: u16,
    pub vert_pad: u16,
}

impl TermBox {
    /// Number of horizontal rule cells in the top and bottom bars.
    pub open spec fn width_spec(self, columns: int) -> int {
        let (x, h) = (self.centre.0 as int, self.horz_pad as int);
        min(min(2 * h + 1, x + h), sat_sub(columns, x) + sat_sub(h, 1))
    }

    /// Number of rows between the top and the bottom bar.
    pub open spec fn height_spec(self) -> int {
        let (y, v) = (self.centre.1 as int, self.vert_pad as int);
        min(2 * v + 1, y + v)
    }

    pub open spec fn left_spec(self) -> int {
        sat_sub(self.centre.0 as int, self.horz_pad + 1)
    }

    pub open spec fn top_spec(self) -> int {
        sat_sub(self.centre.1 as int, self.vert_pad + 1)
    }

    pub open spec fn right_spec(self) -> int {
        self.centre.0 + self.horz_pad + 1
    }

    pub open spec fn bottom_spec(self) -> int {
        self.centre.1 + self.vert_pad + 1
    }

    /// Column of the corner that closes the top bar on the right.
    pub open spec fn bar_end_spec(self, columns: int) -> int {
        self.left_spec() + self.width_spec(columns) + 1
    }

    pub open spec fn top_left_spec(self) -> (int, int) {
        (self.left_spec(), self.top_spec())
    }

    pub open spec fn bottom_left_spec(self) -> (int, int) {
        (self.left_spec(), self.bottom_spec())
    }

    pub open spec fn top_right_spec(self) -> (int, int) {
        (self.right_spec(), self.top_spec())
    }

    pub fn new(centre: (u16, u16), horz_pad: u16, vert_pad: u16) -> (r: Self)
        ensures
            r.centre == centre,
            r.horz_pad == horz_pad,
            r.vert_pad == vert_pad,
    {
        TermBox { centre, horz_pad, vert_pad }
    }

    /// Width of the bars, clamped so that the top bar stays inside a terminal
    /// of `columns` columns.
    pub fn width(&self, columns: u16) -> (r: u32)
        ensures
            r == self.width_spec(columns as int),
            r <= 2 * self.horz_pad + 1,
    {
        let x = self.centre.0 as u32;
        let h = self.horz_pad as u32;
        let full = 2 * h + 1;
        let left_bound = x + h;
        let right_bound = (columns.saturating_sub(self.centre.0) as u32) + (self.horz_pad.saturating_sub(1) as u32);
        let r = if full <= left_bound { full } else { left_bound };
        if r <= right_bound { r } else { right_bound }
    }

    /// Height of the sides. Running off the bottom of the terminal is left
    /// to the terminal; only the top edge is protected.
    pub fn height(&self) -> (r: u32)
        ensures
            r == self.height_spec(),
    {
        let y = self.centre.1 as u32;
        let v = self.vert_pad as u32;
        let full = 2 * v + 1;
        let bound = y + v;
        if full <= bound { full } else { bound }
    }

    pub fn top_left(&self) -> (r: (u32, u32))
        ensures
            r.0 == self.top_left_spec().0,
            r.1 == self.top_left_spec().1,
            self.centre.1 <= self.vert_pad ==> r.1 == 0,
    {
        (
            self.centre.0.saturating_sub(self.horz_pad).saturating_sub(1) as u32,
            self.centre.1.saturating_sub(self.vert_pad).saturating_sub(1) as u32,
        )
    }

    pub fn bottom_left(&self) -> (r: (u32, u32))
        ensures
            r.0 == self.bottom_left_spec().0,
            r.1 == self.bottom_left_spec().1,
    {
        (
            self.centre.0.saturating_sub(self.horz_pad).saturating_sub(1) as u32,
            self.centre.1 as u32 + self.vert_pad as u32 + 1,
        )
    }

    pub fn top_right(&self) -> (r: (u32, u32))
        ensures
            r.0 == self.top_right_spec().0,
            r.1 == self.top_right_spec().1,
            self.centre.1 <= self.vert_pad ==> r.1 == 0,
    {
        (
            self.centre.0 as u32 + self.horz_pad as u32 + 1,
            self.centre.1.saturating_sub(self.vert_pad).saturating_sub(1) as u32,
        )
    }
}

/// The bars are never wider than the padded box. Where the centre lies inside
/// the terminal, far enough from its left edge that the box is not clamped
/// there, and the horizontal padding is at least one, the top bar also ends
/// inside the terminal.
pub proof fn lemma_width_within_terminal(b: TermBox, columns: int)
    requires
        columns >= 1,
    ensures
        b.width_spec(columns) <= 2 * b.horz_pad + 1,
        1 <= b.horz_pad < b.centre.0 <= columns ==> b.bar_end_spec(columns) <= columns - 1,
{
}

/// A centre no lower than the vertical padding puts the top edge on row zero,
/// never on a wrapped-around row.
pub proof fn lemma_top_clamped(b: TermBox)
    requires
        b.centre.1 <= b.vert_pad,
    ensures
        b.top_spec() == 0,
        b.top_left_spec().1 == 0,
        b.top_right_spec().1 == 0,
{
}

/// The geometry depends on nothing but the centre, the paddings and the
/// column count: equal inputs give equal corners, width and height.
pub proof fn lemma_geometry_deterministic(a: TermBox, b: TermBox, columns: int)
    requires
        a.centre == b.centre,
        a.horz_pad == b.horz_pad,
        a.vert_pad == b.vert_pad,
    ensures
        a.width_spec(columns) == b.width_spec(columns),
        a.height_spec() == b.height_spec(),
        a.top_left_spec() == b.top_left_spec(),
        a.bottom_left_spec() == b.bottom_left_spec(),
        a.top_right_spec() == b.top_right_spec(),
{
}

} // verus!
