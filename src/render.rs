use vstd::prelude::*;

verus! {

/// The decimal digit character for `d` (below ten).
pub open spec fn digit_char(d: nat) -> char {
    if d == 0 { '0' }
    else if d == 1 { '1' }
    else if d == 2 { '2' }
    else if d == 3 { '3' }
    else if d == 4 { '4' }
    else if d == 5 { '5' }
    else if d == 6 { '6' }
    else if d == 7 { '7' }
    else if d == 8 { '8' }
    else { '9' }
}

/// The decimal notation of `n`, without leading zeros.
pub open spec fn decimal(n: nat) -> Seq<char>
    decreases n,
{
    if n < 10 {
        seq![digit_char(n)]
    } else {
        decimal(n / 10).push(digit_char(n % 10))
    }
}

/// The decimal notation of `n`, padded with a leading zero to at least two digits.
pub open spec fn two_digits(n: nat) -> Seq<char> {
    if n < 10 {
        seq!['0', digit_char(n)]
    } else {
        decimal(n)
    }
}

/// The countdown text for `secs` seconds left: minutes and seconds, each of
/// at least two digits, as in `02:05 remaining`.
pub open spec fn remaining_text(secs: nat) -> Seq<char> {
    two_digits(secs / 60) + seq![':'] + two_digits(secs % 60) + " remaining"@
}

/// The countdown line as it is written over the previous one: a carriage
/// return, the text, and the control sequence that erases what a longer
/// previous line left behind.
pub open spec fn progress_line_text(secs: nat) -> Seq<char> {
    seq!['\r'] + remaining_text(secs) + seq!['\x1b', '[', 'K']
}

fn digit_str(d: u64) -> (r: &'static str)
    requires
        d < 10,
    ensures
        r@ == seq![digit_char(d as nat)],
{
    proof {
        reveal_strlit("0");
        reveal_strlit("1");
        reveal_strlit("2");
        reveal_strlit("3");
        reveal_strlit("4");
        reveal_strlit("5");
        reveal_strlit("6");
        reveal_strlit("7");
        reveal_strlit("8");
        reveal_strlit("9");
    }
    if d == 0 { "0" }
    else if d == 1 { "1" }
    else if d == 2 { "2" }
    else if d == 3 { "3" }
    else if d == 4 { "4" }
    else if d == 5 { "5" }
    else if d == 6 { "6" }
    else if d == 7 { "7" }
    else if d == 8 { "8" }
    else { "9" }
}

/// Appends the decimal notation of `n` to `out`.
fn push_decimal(out: &mut String, n: u64)
    ensures
        final(out)@ == old(out)@ + decimal(n as nat),
    decreases n,
{
    if n < 10 {
        out.append(digit_str(n));
    } else {
        push_decimal(out, n / 10);
        out.append(digit_str(n % 10));
        assert(final(out)@ =~= old(out)@ + decimal(n as nat));
    }
}

/// Appends `n` with at least two digits to `out`.
fn push_two_digits(out: &mut String, n: u64)
    ensures
        final(out)@ == old(out)@ + two_digits(n as nat),
{
    if n < 10 {
        out.append(digit_str(0));
        out.append(digit_str(n));
        assert(final(out)@ =~= old(out)@ + two_digits(n as nat));
    } else {
        push_decimal(out, n);
    }
}

/// Renders `secs` seconds left as `MM:SS remaining`.
pub fn remaining_string(secs: u64) -> (r: String)
    ensures
        r@ == remaining_text(secs as nat),
{
    let mut out = String::new();
    push_two_digits(&mut out, secs / 60);
    out.append(":");
    push_two_digits(&mut out, secs % 60);
    out.append(" remaining");
    proof {
        reveal_strlit(":");
    }
    assert(out@ =~= remaining_text(secs as nat));
    out
}

/// The line that the countdown writes on each tick: it returns to the start
/// of the terminal line, shows the remaining time and clears the rest of the
/// line.
pub fn progress_line(secs: u64) -> (r: String)
    ensures
        r@ == progress_line_text(secs as nat),
{
    let mut out = String::from_str("\r");
    let text = remaining_string(secs);
    out.append(text.as_str());
    out.append("\x1b[K");
    proof {
        reveal_strlit("\r");
        reveal_strlit("\x1b[K");
    }
    assert(out@ =~= progress_line_text(secs as nat));
    out
}

} // verus!
