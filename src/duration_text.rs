use vstd::prelude::*;

verus! {

/// The character of a decimal digit.
pub open spec fn digit_char(d: nat) -> char {
    if d == 0 { '0' }
    else if d == 1 { '1' }
    else if d == 2 { '2' }
    else if d == 3 { '3' }
    else if d == 4 { '4' }
    else if d == 5 { '5' }
    else if d == 6 { '6' }
    else if d == 7 { '7' }
    else if d == 8 { '8' }
    else { '9' }
}

/// The decimal notation of `n`, without leading zeros.
pub open spec fn decimal(n: nat) -> Seq<char>
    decreases n,
{
    if n < 10 {
        seq![digit_char(n)]
    } else {
        decimal(n / 10) + seq![digit_char(n % 10)]
    }
}

/// The decimal notation of `n`, padded with a leading zero to at least two digits.
pub open spec fn two_digits(n: nat) -> Seq<char> {
    if n < 10 {
        seq!['0', digit_char(n)]
    } else {
        decimal(n)
    }
}

/// The `mm:ss` text of a duration given in milliseconds: whole minutes, then the
/// seconds left over, each at least two digits wide.
pub open spec fn clock_text(duration_ms: nat) -> Seq<char> {
    let secs = duration_ms / 1000;
    two_digits(secs / 60) + seq![':'] + two_digits(secs % 60)
}

fn digit_str(d: u64) -> (r: &'static str)
    requires
        d < 10,
    ensures
        r@ == seq![digit_char(d as nat)],
{
    proof {
        reveal_strlit("0");
        reveal_strlit("1");
        reveal_strlit("2");
        reveal_strlit("3");
        reveal_strlit("4");
        reveal_strlit("5");
        reveal_strlit("6");
        reveal_strlit("7");
        reveal_strlit("8");
        reveal_strlit("9");
    }
    match d {
        0 => "0",
        1 => "1",
        2 => "2",
        3 => "3",
        4 => "4",
        5 => "5",
        6 => "6",
        7 => "7",
        8 => "8",
        _ => "9",
    }
}

fn push_decimal(s: &mut String, n: u64)
    ensures
        final(s)@ == old(s)@ + decimal(n as nat),
    decreases n,
{
    if n < 10 {
        s.append(digit_str(n));
    } else {
        push_decimal(s, n / 10);
        s.append(digit_str(n % 10));
        assert(final(s)@ =~= old(s)@ + decimal(n as nat));
    }
}

fn push_two_digits(s: &mut String, n: u64)
    ensures
        final(s)@ == old(s)@ + two_digits(n as nat),
{
    if n < 10 {
        proof {
            reveal_strlit("0");
        }
        s.append("0");
        s.append(digit_str(n));
        assert(final(s)@ =~= old(s)@ + two_digits(n as nat));
    } else {
        push_decimal(s, n);
    }
}

/// Renders a duration in milliseconds as `mm:ss`.
pub fn format_duration(duration_ms: u64) -> (r: String)
    ensures
        r@ == clock_text(duration_ms as nat),
{
    let secs: u64 = duration_ms / 1000;
    let mut s = String::new();
    push_two_digits(&mut s, secs / 60);
    proof {
        reveal_strlit(":");
    }
    s.append(":");
    push_two_digits(&mut s, secs % 60);
    assert(s@ =~= clock_text(duration_ms as nat));
    s
}

} // verus!
