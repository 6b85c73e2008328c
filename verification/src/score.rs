//! The score: a monotonically non-decreasing counter fed by fixed
//! kill awards, and the decimal text the display collaborator renders.

use vstd::prelude::*;
use vstd::string::StringExecFns;

verus! {

/// Points one enemy kill awards.
pub const KILL_AWARD: u64 = 100;

#[derive(Clone, Copy, PartialEq, Eq, Structural, Debug)]
pub struct Score {
    pub score: u64,
}

impl Score {
    pub fn new() -> (s: Score)
        ensures
            s.score == 0,
    {
        Score { score: 0 }
    }

    /// The decimal text of the current score, for the display.
    pub fn score_text(&self) -> (r: String)
        ensures
            r@ == decimal_digits(self.score as int),
    {
        decimal_string(self.score)
    }

    /// Awards the points for one kill; the counter saturates at the
    /// machine limit, far beyond any reachable score.
    pub fn add_kill_award(&mut self)
        ensures
            final(self).score == if old(self).score + KILL_AWARD <= u64::MAX {
                old(self).score + KILL_AWARD
            } else {
                old(self).score as int
            },
            final(self).score >= old(self).score,
    {
        if self.score <= u64::MAX - KILL_AWARD {
            self.score = self.score + KILL_AWARD;
        }
    }
}

/// The text of one decimal digit.
pub open spec fn digit_str(d: int) -> Seq<char> {
    if d == 0 {
        "0"@
    } else if d == 1 {
        "1"@
    } else if d == 2 {
        "2"@
    } else if d == 3 {
        "3"@
    } else if d == 4 {
        "4"@
    } else if d == 5 {
        "5"@
    } else if d == 6 {
        "6"@
    } else if d == 7 {
        "7"@
    } else if d == 8 {
        "8"@
    } else {
        "9"@
    }
}

/// The decimal text of a non-negative number, most significant digit
/// first, with no leading zeros (a lone zero for zero).
pub open spec fn decimal_digits(n: int) -> Seq<char>
    decreases n,
{
    if n < 10 {
        digit_str(n)
    } else {
        decimal_digits(n / 10) + digit_str(n % 10)
    }
}

/// Renders a number in decimal.
pub fn decimal_string(n: u64) -> (r: String)
    ensures
        r@ == decimal_digits(n as int),
    decreases n,
{
    let digit: u64 = n % 10;
    let piece: &str = if digit == 0 {
        "0"
    } else if digit == 1 {
        "1"
    } else if digit == 2 {
        "2"
    } else if digit == 3 {
        "3"
    } else if digit == 4 {
        "4"
    } else if digit == 5 {
        "5"
    } else if digit == 6 {
        "6"
    } else if digit == 7 {
        "7"
    } else if digit == 8 {
        "8"
    } else {
        "9"
    };
    if n < 10 {
        String::from_str(piece)
    } else {
        proof {
            vstd::arithmetic::div_mod::lemma_div_decreases(n as int, 10);
            vstd::arithmetic::div_mod::lemma_div_pos_is_pos(n as int, 10);
        }
        let mut s = decimal_string(n / 10);
        s.append(piece);
        s
    }
}

} // verus!
