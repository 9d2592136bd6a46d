use vstd::prelude::*;

verus! {

/// The character of a decimal digit.
pub open spec fn digit_char(d: nat) -> char {
    if d == 0 {
        '0'
    } else if d == 1 {
        '1'
    } else if d == 2 {
        '2'
    } else if d == 3 {
        '3'
    } else if d == 4 {
        '4'
    } else if d == 5 {
        '5'
    } else if d == 6 {
        '6'
    } else if d == 7 {
        '7'
    } else if d == 8 {
        '8'
    } else {
        '9'
    }
}

/// The decimal digits of `n`, without leading zeros.
pub open spec fn decimal(n: nat) -> Seq<char>
    decreases n,
{
    if n < 10 {
        seq![digit_char(n)]
    } else {
        decimal(n / 10).push(digit_char(n % 10))
    }
}

/// The decimal digits of `n`, with a leading zero below ten.
pub open spec fn two_digits(n: nat) -> Seq<char> {
    if n < 10 {
        seq!['0', digit_char(n)]
    } else {
        decimal(n)
    }
}

/// A duration of `ms` milliseconds as whole minutes and seconds, `MM:SS`.
pub open spec fn duration_text(ms: nat) -> Seq<char> {
    let secs = ms / 1000;
    two_digits(secs / 60) + seq![':'] + two_digits(secs % 60)
}

/// Elapsed and total time as `MM:SS / MM:SS`.
pub open spec fn time_label_text(elapsed: nat, total: nat) -> Seq<char> {
    duration_text(elapsed) + seq![' ', '/', ' '] + duration_text(total)
}

fn digit_str(d: u64) -> (r: &'static str)
    requires
        d < 10,
    ensures
        r@ == seq![digit_char(d as nat)],
{
    proof {
        reveal_strlit("0");
        reveal_strlit("1");
        reveal_strlit("2");
        reveal_strlit("3");
        reveal_strlit("4");
        reveal_strlit("5");
        reveal_strlit("6");
        reveal_strlit("7");
        reveal_strlit("8");
        reveal_strlit("9");
    }
    if d == 0 {
        "0"
    } else if d == 1 {
        "1"
    } else if d == 2 {
        "2"
    } else if d == 3 {
        "3"
    } else if d == 4 {
        "4"
    } else if d == 5 {
        "5"
    } else if d == 6 {
        "6"
    } else if d == 7 {
        "7"
    } else if d == 8 {
        "8"
    } else {
        "9"
    }
}

fn push_decimal(s: &mut String, n: u64)
    ensures
        final(s)@ == old(s)@ + decimal(n as nat),
    decreases n,
{
    if n >= 10 {
        push_decimal(s, n / 10);
    }
    s.append(digit_str(n % 10));
    assert(final(s)@ =~= old(s)@ + decimal(n as nat));
}

fn push_two_digits(s: &mut String, n: u64)
    ensures
        final(s)@ == old(s)@ + two_digits(n as nat),
{
    proof {
        reveal_strlit("0");
    }
    if n < 10 {
        s.append("0");
    }
    push_decimal(s, n);
    assert(final(s)@ =~= old(s)@ + two_digits(n as nat));
}

fn push_duration(s: &mut String, ms: u64)
    ensures
        final(s)@ == old(s)@ + duration_text(ms as nat),
{
    proof {
        reveal_strlit(":");
    }
    let secs = ms / 1000;
    push_two_digits(s, secs / 60);
    s.append(":");
    push_two_digits(s, secs % 60);
    assert(final(s)@ =~= old(s)@ + duration_text(ms as nat));
}

/// A duration of `ms` milliseconds as whole minutes and seconds, `MM:SS`.
pub fn format_duration(ms: u64) -> (r: String)
    ensures
        r@ == duration_text(ms as nat),
{
    let mut s = String::new();
    push_duration(&mut s, ms);
    assert(s@ =~= duration_text(ms as nat));
    s
}

/// Elapsed and total time as `MM:SS / MM:SS`.
pub fn time_label(elapsed: u64, total: u64) -> (r: String)
    ensures
        r@ == time_label_text(elapsed as nat, total as nat),
{
    proof {
        reveal_strlit(" / ");
    }
    let mut s = String::new();
    push_duration(&mut s, elapsed);
    s.append(" / ");
    push_duration(&mut s, total);
    assert(s@ =~= time_label_text(elapsed as nat, total as nat));
    s
}

} // verus!
