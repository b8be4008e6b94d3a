//! The countdown clock: minutes and seconds, ticked down once per second
//! while the timer is enabled and playback is running.

use vstd::prelude::*;
use vstd::string::StringExecFns;

verus! {

/// A countdown clock value: whole minutes plus leftover seconds.
#[derive(Clone, Copy, PartialEq, Eq, Structural, Debug)]
pub struct Timer {
    pub mins: u32,
    pub secs: u32,
}

impl Timer {
    /// A countdown value is well formed when the seconds are a remainder
    /// below one minute.
    pub open spec fn wf(self) -> bool {
        self.secs <= 59
    }

    /// Total remaining time in seconds.
    pub open spec fn total_secs(self) -> int {
        self.mins * 60 + self.secs
    }
}

impl Default for Timer {
    /// The countdown starts at 2:30.
    fn default() -> (t: Timer)
        ensures
            t == (Timer { mins: 2, secs: 30 }),
    {
        Timer { mins: 2, secs: 30 }
    }
}

/// What one countdown tick does: take one second off, borrowing from the
/// minutes when the seconds are spent, and hold at 0:00 once the clock has
/// run out (clamped, never negative, never wrapping to 59:59).
pub open spec fn spec_update_timer(t: Timer) -> Timer {
    if t.secs == 0 && t.mins > 0 {
        Timer { mins: (t.mins - 1) as u32, secs: 59 }
    } else if t.secs > 0 {
        Timer { mins: t.mins, secs: (t.secs - 1) as u32 }
    } else {
        t
    }
}

/// Advance the countdown by one second, floor-clamped at 0:00.
pub fn update_timer(timer: Timer) -> (r: Timer)
    ensures
        r == spec_update_timer(timer),
        timer.wf() ==> r.wf(),
        r.total_secs() == if timer.total_secs() == 0 {
            0int
        } else {
            timer.total_secs() - 1
        },
{
    let mut timer = timer;
    if timer.secs == 0 && timer.mins > 0 {
        timer.mins -= 1;
        timer.secs = 59;
    } else if timer.secs > 0 {
        timer.secs -= 1;
    }
    timer
}

/// Once the countdown has reached 0:00 it stays there on every further tick.
pub proof fn lemma_countdown_holds_at_zero(t: Timer)
    requires
        t.total_secs() == 0,
    ensures
        spec_update_timer(t) == t,
{
}

/// The character for one decimal digit.
pub open spec fn digit_char(d: nat) -> char {
    if d == 0 {
        '0'
    } else if d == 1 {
        '1'
    } else if d == 2 {
        '2'
    } else if d == 3 {
        '3'
    } else if d == 4 {
        '4'
    } else if d == 5 {
        '5'
    } else if d == 6 {
        '6'
    } else if d == 7 {
        '7'
    } else if d == 8 {
        '8'
    } else {
        '9'
    }
}

/// The decimal numeral of a number, most significant digit first, without
/// leading zeros (a single `'0'` for zero itself).
pub open spec fn spec_decimal(n: nat) -> Seq<char>
    decreases n,
{
    if n < 10 {
        seq![digit_char(n)]
    } else {
        spec_decimal(n / 10).push(digit_char(n % 10))
    }
}

/// The one-character string for a decimal digit.
fn digit_str(d: u32) -> (s: &'static str)
    requires
        d < 10,
    ensures
        s@ == seq![digit_char(d as nat)],
{
    proof {
        reveal_strlit("0");
        reveal_strlit("1");
        reveal_strlit("2");
        reveal_strlit("3");
        reveal_strlit("4");
        reveal_strlit("5");
        reveal_strlit("6");
        reveal_strlit("7");
        reveal_strlit("8");
        reveal_strlit("9");
        assert("0"@ =~= seq![digit_char(0)]);
        assert("1"@ =~= seq![digit_char(1)]);
        assert("2"@ =~= seq![digit_char(2)]);
        assert("3"@ =~= seq![digit_char(3)]);
        assert("4"@ =~= seq![digit_char(4)]);
        assert("5"@ =~= seq![digit_char(5)]);
        assert("6"@ =~= seq![digit_char(6)]);
        assert("7"@ =~= seq![digit_char(7)]);
        assert("8"@ =~= seq![digit_char(8)]);
        assert("9"@ =~= seq![digit_char(9)]);
    }
    if d == 0 {
        "0"
    } else if d == 1 {
        "1"
    } else if d == 2 {
        "2"
    } else if d == 3 {
        "3"
    } else if d == 4 {
        "4"
    } else if d == 5 {
        "5"
    } else if d == 6 {
        "6"
    } else if d == 7 {
        "7"
    } else if d == 8 {
        "8"
    } else {
        "9"
    }
}

/// Append the decimal numeral of `n` to the string.
fn push_decimal(n: u32, out: &mut String)
    ensures
        final(out)@ == old(out)@ + spec_decimal(n as nat),
    decreases n,
{
    if n >= 10 {
        push_decimal(n / 10, out);
    }
    out.append(digit_str(n % 10));
    proof {
        assert(out@ =~= old(out)@ + spec_decimal(n as nat));
    }
}

/// The display form of the countdown: the minutes in decimal, a colon, and
/// the seconds in decimal padded with a leading zero to two digits.
pub open spec fn spec_mins_and_secs(mins: nat, secs: nat) -> Seq<char> {
    if secs < 10 {
        spec_decimal(mins) + seq![':'] + seq!['0'] + spec_decimal(secs)
    } else {
        spec_decimal(mins) + seq![':'] + spec_decimal(secs)
    }
}

/// Format the countdown for display as `minutes:seconds`, the seconds
/// zero-padded to two digits.
pub fn format_mins_and_secs(mins: u32, secs: u32) -> (s: String)
    ensures
        s@ == spec_mins_and_secs(mins as nat, secs as nat),
{
    let mut s = String::new();
    push_decimal(mins, &mut s);
    s.append(":");
    if secs < 10 {
        s.append("0");
    }
    push_decimal(secs, &mut s);
    proof {
        reveal_strlit(":");
        reveal_strlit("0");
        assert(":"@ =~= seq![':']);
        assert("0"@ =~= seq!['0']);
        assert(s@ =~= spec_mins_and_secs(mins as nat, secs as nat));
    }
    s
}

} // verus!
