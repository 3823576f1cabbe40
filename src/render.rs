//! The terminal output that draws an outline: cursor moves and box-drawing
//! glyphs, top bar first, then the sides row by row, then the bottom bar.
use vstd::prelude::*;
use vstd::string::StringExecFns;
use crossterm::Command;

use crate::geometry::TermBox;

verus! {

/// Decimal digits of `n`, most significant first, with no leading zero.
pub open spec fn decimal(n: nat) -> Seq<char>
    decreases n,
{
    let digit = (('0' as u8) + (n % 10) as u8) as char;
    if n < 10 {
        seq![digit]
    } else {
        decimal(n / 10).push(digit)
    }
}

/// The control sequence that puts the cursor at zero-based column `col` and
/// row `row`: `ESC [ row+1 ; col+1 H`.
pub open spec fn move_to_seq(col: int, row: int) -> Seq<char> {
    seq!['\x1b', '['] + decimal((row + 1) as nat) + seq![';'] + decimal((col + 1) as nat) + seq!['H']
}

pub open spec fn rule_seq(n: int) -> Seq<char> {
    Seq::new(n as nat, |i: int| '─')
}

/// Relies on crossterm's `cursor::MoveTo` and its `write_ansi`, which writes
/// `ESC [ {row + 1} ; {col + 1} H`, adding one to each `u16`.
#[verifier::external_body]
fn move_to(col: u16, row: u16) -> (r: String)
    requires
        col < u16::MAX,
        row < u16::MAX,
    ensures
        r@ == move_to_seq(col as int, row as int),
{
    let mut s = String::new();
    let _ = crossterm::cursor::MoveTo(col, row).write_ansi(&mut s);
    s
}

impl TermBox {
    /// Every cell the outline touches can be addressed by a cursor move.
    pub open spec fn addressable(self) -> bool {
        self.right_spec() < u16::MAX && self.bottom_spec() < u16::MAX
    }

    /// The sides of the first `k` rows below the top bar.
    pub open spec fn sides_seq(self, k: nat) -> Seq<char>
        decreases k,
    {
        if k == 0 {
            seq![]
        } else {
            self.sides_seq((k - 1) as nat) + move_to_seq(self.left_spec(), self.top_spec() + k)
                + seq!['│'] + move_to_seq(self.right_spec(), self.top_spec() + k) + seq!['│']
        }
    }

    /// The whole outline in a terminal of `columns` columns.
    pub open spec fn frame_spec(self, columns: int) -> Seq<char> {
        move_to_seq(self.left_spec(), self.top_spec()) + seq!['┌'] + rule_seq(self.width_spec(columns))
            + seq!['┐'] + self.sides_seq(self.height_spec() as nat) + move_to_seq(
            self.left_spec(),
            self.bottom_spec(),
        ) + seq!['└'] + rule_seq(self.width_spec(columns)) + seq!['┘']
    }
}

fn push_rule(s: &mut String, n: u32)
    ensures
        final(s)@ == old(s)@ + rule_seq(n as int),
{
    let mut i: u32 = 0;
    while i < n
        invariant
            i <= n,
            s@ == old(s)@ + rule_seq(i as int),
        decreases n - i,
    {
        proof {
            reveal_strlit("─");
        }
        s.append("─");
        i = i + 1;
        assert(s@ =~= old(s)@ + rule_seq(i as int));
    }
}

impl TermBox {
    /// The output that draws the outline in a terminal of `columns` columns,
    /// or `None` where some corner lies beyond the last column or row that a
    /// cursor move can address.
    pub fn frame(&self, columns: u16) -> (r: Option<String>)
        ensures
            r.is_some() <==> self.addressable(),
            r matches Some(f) ==> f@ == self.frame_spec(columns as int),
    {
        if self.centre.0 as u32 + self.horz_pad as u32 + 1 >= 65535 || self.centre.1 as u32
            + self.vert_pad as u32 + 1 >= 65535 {
            return None;
        }
        let (left, top) = self.top_left();
        let (right, _) = self.top_right();
        let (_, bottom) = self.bottom_left();
        let width = self.width(columns);
        let height = self.height();
        proof {
            reveal_strlit("┌");
            reveal_strlit("┐");
            reveal_strlit("│");
            reveal_strlit("└");
            reveal_strlit("┘");
        }
        let mut out = move_to(left as u16, top as u16);
        out.append("┌");
        push_rule(&mut out, width);
        out.append("┐");
        assert(out@ =~= move_to_seq(left as int, top as int) + seq!['┌'] + rule_seq(width as int)
            + seq!['┐'] + self.sides_seq(0));
        let mut row: u32 = 1;
        while row <= height
            invariant
                1 <= row <= height + 1,
                height == self.height_spec(),
                top == self.top_spec(),
                left == self.left_spec(),
                right == self.right_spec(),
                self.addressable(),
                top + height < u16::MAX,
                out@ == move_to_seq(left as int, top as int) + seq!['┌'] + rule_seq(width as int)
                    + seq!['┐'] + self.sides_seq((row - 1) as nat),
            decreases height + 1 - row,
        {
            let ghost before = out@;
            proof {
                reveal_strlit("│");
            }
            let at_left = move_to(left as u16, (top + row) as u16);
            let at_right = move_to(right as u16, (top + row) as u16);
            out.append(at_left.as_str());
            out.append("│");
            out.append(at_right.as_str());
            out.append("│");
            assert(out@ =~= before + move_to_seq(left as int, top + row) + seq!['│'] + move_to_seq(
                right as int,
                top + row,
            ) + seq!['│']);
            assert(self.sides_seq(row as nat) == self.sides_seq((row - 1) as nat) + move_to_seq(
                self.left_spec(),
                self.top_spec() + row,
            ) + seq!['│'] + move_to_seq(self.right_spec(), self.top_spec() + row) + seq!['│']);
            row = row + 1;
            assert(out@ =~= move_to_seq(left as int, top as int) + seq!['┌'] + rule_seq(width as int)
                + seq!['┐'] + self.sides_seq((row - 1) as nat));
        }
        let at_bottom = move_to(left as u16, bottom as u16);
        out.append(at_bottom.as_str());
        out.append("└");
        push_rule(&mut out, width);
        out.append("┘");
        assert(out@ =~= self.frame_spec(columns as int));
        Some(out)
    }
}

} // verus!
