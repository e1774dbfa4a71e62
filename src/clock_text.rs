//! Decimal digits and the elapsed-time text (`"2 days, 01:01:01 "`).

use vstd::prelude::*;

verus! {

pub const SECONDS_IN_DAY: u64 = 86400;

/// The character of a decimal digit.
pub open spec fn digit_char(d: nat) -> char {
    if d == 0 {
        '0'
    } else if d == 1 {
        '1'
    } else if d == 2 {
        '2'
    } else if d == 3 {
        '3'
    } else if d == 4 {
        '4'
    } else if d == 5 {
        '5'
    } else if d == 6 {
        '6'
    } else if d == 7 {
        '7'
    } else if d == 8 {
        '8'
    } else {
        '9'
    }
}

/// `n` written in decimal, without leading zeros.
pub open spec fn decimal(n: nat) -> Seq<char>
    decreases n,
{
    if n < 10 {
        seq![digit_char(n)]
    } else {
        decimal(n / 10) + seq![digit_char(n % 10)]
    }
}

/// `n` written with two digits, a leading zero below ten (for `n < 100`).
pub open spec fn two_digits(n: nat) -> Seq<char> {
    seq![digit_char(n / 10), digit_char(n % 10)]
}

/// The prefix that counts whole days: none, `"1 day, "` or `"<n> days, "`.
pub open spec fn days_text(days: nat) -> Seq<char> {
    if days == 0 {
        Seq::empty()
    } else if days == 1 {
        "1 day, "@
    } else {
        decimal(days) + " days, "@
    }
}

/// The elapsed-time text for `secs` whole seconds: the days prefix, then
/// hours, minutes and seconds of the current day as `HH:MM:SS`, then a space.
pub open spec fn elapsed_text(secs: nat) -> Seq<char> {
    days_text(secs / 86400) + two_digits((secs % 86400) / 3600) + ":"@ + two_digits(
        (secs % 3600) / 60,
    ) + ":"@ + two_digits(secs % 60) + " "@
}

/// The text of one decimal digit.
fn digit_str(d: u64) -> (r: &'static str)
    requires
        d < 10,
    ensures
        r@ == seq![digit_char(d as nat)],
{
    if d == 0 {
        proof { reveal_strlit("0"); }
        assert("0"@ =~= seq!['0']);
        "0"
    } else if d == 1 {
        proof { reveal_strlit("1"); }
        assert("1"@ =~= seq!['1']);
        "1"
    } else if d == 2 {
        proof { reveal_strlit("2"); }
        assert("2"@ =~= seq!['2']);
        "2"
    } else if d == 3 {
        proof { reveal_strlit("3"); }
        assert("3"@ =~= seq!['3']);
        "3"
    } else if d == 4 {
        proof { reveal_strlit("4"); }
        assert("4"@ =~= seq!['4']);
        "4"
    } else if d == 5 {
        proof { reveal_strlit("5"); }
        assert("5"@ =~= seq!['5']);
        "5"
    } else if d == 6 {
        proof { reveal_strlit("6"); }
        assert("6"@ =~= seq!['6']);
        "6"
    } else if d == 7 {
        proof { reveal_strlit("7"); }
        assert("7"@ =~= seq!['7']);
        "7"
    } else if d == 8 {
        proof { reveal_strlit("8"); }
        assert("8"@ =~= seq!['8']);
        "8"
    } else {
        proof { reveal_strlit("9"); }
        assert("9"@ =~= seq!['9']);
        "9"
    }
}

/// Appends `n` in decimal to `out`.
pub(crate) fn append_decimal(out: &mut String, n: u64)
    ensures
        final(out)@ == old(out)@ + decimal(n as nat),
    decreases n,
{
    if n < 10 {
        out.append(digit_str(n));
    } else {
        let ghost before = out@;
        append_decimal(out, n / 10);
        out.append(digit_str(n % 10));
        assert(out@ =~= before + decimal(n as nat));
    }
}

/// Appends `n` with two digits to `out`.
pub(crate) fn append_two_digits(out: &mut String, n: u64)
    requires
        n < 100,
    ensures
        final(out)@ == old(out)@ + two_digits(n as nat),
{
    let ghost before = out@;
    out.append(digit_str(n / 10));
    out.append(digit_str(n % 10));
    assert(out@ =~= before + two_digits(n as nat));
}

/// Under a day there is no days prefix, and the hours are the seconds
/// divided by 3600.
pub proof fn lemma_elapsed_under_a_day(secs: nat)
    requires
        secs < 86400,
    ensures
        days_text(secs / 86400) == Seq::<char>::empty(),
        elapsed_text(secs) == two_digits(secs / 3600) + ":"@ + two_digits((secs % 3600) / 60)
            + ":"@ + two_digits(secs % 60) + " "@,
{
    assert(secs / 86400 == 0);
    assert(secs % 86400 == secs);
    assert(Seq::<char>::empty() + two_digits(secs / 3600) =~= two_digits(secs / 3600));
}

} // verus!
