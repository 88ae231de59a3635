//! Score tracking: survival time accumulates, one sub-unit per fast tick
//! while unpaused, and sub-units roll over into whole units exactly at 100.
//! The tracker also renders the score as text for the UI collaborator.

use vstd::prelude::*;

verus! {

/// Number of sub-units that make one whole unit of score.
pub const SUBS_PER_WHOLE: u32 = 100;

/// The score: a pair of counters for elapsed survival time, displayed as
/// `whole.sub` with the sub-units rolling over at 100.
#[derive(Clone, Copy, Debug, PartialEq, Eq, Structural)]
pub struct Score {
    pub whole: u32,
    pub sub: u32,
}

/// The sub-unit counter always stays below the roll-over point.
pub open spec fn score_wf(s: Score) -> bool {
    s.sub < SUBS_PER_WHOLE
}

/// Total number of sub-units the score stands for.
pub open spec fn score_value(s: Score) -> int {
    s.whole * SUBS_PER_WHOLE + s.sub
}

/// The score after one fast tick of survival: the sub-units grow by one,
/// rolling into a whole unit exactly at 100. The whole-unit counter stops
/// at its machine limit rather than wrap.
pub open spec fn ticked_score(s: Score) -> Score {
    if s.sub + 1 == SUBS_PER_WHOLE {
        Score {
            whole: if s.whole < u32::MAX {
                (s.whole + 1) as u32
            } else {
                s.whole
            },
            sub: 0,
        }
    } else {
        Score { whole: s.whole, sub: (s.sub + 1) as u32 }
    }
}

/// Roll-over law: a tick adds exactly one sub-unit of value — sub-units
/// roll into whole units exactly at 100, never skipping or double-counting.
pub proof fn lemma_score_counts_one_per_tick(s: Score)
    requires
        score_wf(s),
        s.whole < u32::MAX,
    ensures
        score_value(ticked_score(s)) == score_value(s) + 1,
        score_wf(ticked_score(s)),
{
}

/// Decimal digits of a number, most significant first, no leading zeros.
pub open spec fn dec_digits(n: nat) -> Seq<char>
    decreases n,
{
    if n < 10 {
        seq![digit_char(n)]
    } else {
        dec_digits(n / 10).push(digit_char(n % 10))
    }
}

/// The character for one decimal digit.
pub open spec fn digit_char(d: nat) -> char {
    if d == 0 {
        '0'
    } else if d == 1 {
        '1'
    } else if d == 2 {
        '2'
    } else if d == 3 {
        '3'
    } else if d == 4 {
        '4'
    } else if d == 5 {
        '5'
    } else if d == 6 {
        '6'
    } else if d == 7 {
        '7'
    } else if d == 8 {
        '8'
    } else {
        '9'
    }
}

/// Text that a score is displayed as: `whole.sub` followed by `s`.
pub open spec fn score_text(s: Score) -> Seq<char> {
    dec_digits(s.whole as nat) + seq!['.'] + dec_digits(s.sub as nat) + seq!['s']
}

/// Appends one decimal digit to the text being built.
fn push_digit(text: &mut String, d: u32)
    requires
        d < 10,
    ensures
        final(text)@ == old(text)@ + seq![digit_char(d as nat)],
{
    proof {
        reveal_strlit("0");
        reveal_strlit("1");
        reveal_strlit("2");
        reveal_strlit("3");
        reveal_strlit("4");
        reveal_strlit("5");
        reveal_strlit("6");
        reveal_strlit("7");
        reveal_strlit("8");
        reveal_strlit("9");
    }
    if d == 0 {
        text.append("0");
    } else if d == 1 {
        text.append("1");
    } else if d == 2 {
        text.append("2");
    } else if d == 3 {
        text.append("3");
    } else if d == 4 {
        text.append("4");
    } else if d == 5 {
        text.append("5");
    } else if d == 6 {
        text.append("6");
    } else if d == 7 {
        text.append("7");
    } else if d == 8 {
        text.append("8");
    } else {
        text.append("9");
    }
    proof {
        assert(text@ =~= old(text)@ + seq![digit_char(d as nat)]);
    }
}

/// Appends a number's decimal digits, most significant first.
fn push_decimal(text: &mut String, n: u32)
    ensures
        final(text)@ == old(text)@ + dec_digits(n as nat),
    decreases n,
{
    if n >= 10 {
        push_decimal(text, n / 10);
        push_digit(text, n % 10);
        proof {
            assert(text@ =~= old(text)@ + dec_digits(n as nat));
        }
    } else {
        push_digit(text, n);
    }
}

impl Score {
    /// A fresh, zeroed score.
    pub fn new() -> (s: Score)
        ensures
            score_wf(s),
            s.whole == 0 && s.sub == 0,
    {
        Score { whole: 0, sub: 0 }
    }

    /// One fast tick of survival while unpaused.
    pub fn tick(&mut self)
        requires
            score_wf(*old(self)),
        ensures
            *final(self) == ticked_score(*old(self)),
            score_wf(*final(self)),
    {
        let new_sub = self.sub + 1;
        if new_sub == SUBS_PER_WHOLE {
            self.sub = 0;
            if self.whole < u32::MAX {
                self.whole = self.whole + 1;
            }
        } else {
            self.sub = new_sub;
        }
    }

    /// The score rendered for display.
    pub fn text(&self) -> (r: String)
        ensures
            r@ == score_text(*self),
    {
        proof {
            reveal_strlit("");
            reveal_strlit(".");
            reveal_strlit("s");
        }
        let mut r = String::from_str("");
        push_decimal(&mut r, self.whole);
        r.append(".");
        push_decimal(&mut r, self.sub);
        r.append("s");
        proof {
            assert(r@ =~= score_text(*self));
        }
        r
    }
}

} // verus!
