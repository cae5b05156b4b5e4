//! One row of the ten-bead abacus that helps with a task.

use vstd::prelude::*;

verus! {

/// A row of ten beads, filled from the left: `red` red beads, then `blue`
/// blue ones, then `red2` red ones; the rest stay empty.
#[derive(Debug, Clone, Copy, PartialEq, Eq, Structural)]
pub struct Abacus {
    pub red: i32,
    pub blue: i32,
    pub red2: i32,
}

/// How the bead at a position of a row is drawn.
#[derive(Debug, Clone, Copy, PartialEq, Eq, Structural)]
pub enum Bead {
    Red,
    Blue,
    Empty,
}

impl Abacus {
    /// The number of filled beads.
    pub open spec fn filled(self) -> int {
        self.red + self.blue + self.red2
    }

    /// The number of red beads.
    pub open spec fn reds(self) -> int {
        self.red + self.red2
    }

    /// The bead at position `i`.
    pub open spec fn bead_at(self, i: int) -> Bead {
        if i < self.red {
            Bead::Red
        } else if i < self.blue + self.red {
            Bead::Blue
        } else if i < self.blue + self.red + self.red2 {
            Bead::Red
        } else {
            Bead::Empty
        }
    }

    /// Sets the three bead counts of the row.
    pub fn set_red_blue_red(&mut self, red: i32, blue: i32, red2: i32)
        ensures
            *final(self) == (Abacus { red, blue, red2 }),
    {
        self.red = red;
        self.blue = blue;
        self.red2 = red2;
    }

    /// The bead at position `i` of the row.
    pub fn bead(&self, i: i32) -> (b: Bead)
        requires
            i32::MIN <= self.blue + self.red <= i32::MAX,
            i32::MIN <= self.blue + self.red + self.red2 <= i32::MAX,
        ensures
            b == self.bead_at(i as int),
    {
        if i < self.red {
            Bead::Red
        } else if i < self.blue + self.red {
            Bead::Blue
        } else if i < self.blue + self.red + self.red2 {
            Bead::Red
        } else {
            Bead::Empty
        }
    }
}

/// With counts that are not negative, the beads of a row read from the left
/// are the `red` red ones, then exactly the `blue` blue ones, then red again up
/// to the filled count, and empty from there on.
pub proof fn lemma_bead_order(a: Abacus, i: int)
    requires
        0 <= a.red,
        0 <= a.blue,
        0 <= a.red2,
        0 <= i,
    ensures
        (a.bead_at(i) == Bead::Empty) <==> i >= a.filled(),
        (a.bead_at(i) == Bead::Blue) <==> a.red <= i < a.red + a.blue,
        (a.bead_at(i) == Bead::Red) <==> (i < a.red || a.red + a.blue <= i < a.filled()),
{
}

} // verus!
