use vstd::prelude::*;

verus! {

/// The decimal digit for `d < 10`.
pub open spec fn digit(d: nat) -> char {
    if d == 0 { '0' } else if d == 1 { '1' } else if d == 2 { '2' } else if d == 3 { '3' }
    else if d == 4 { '4' } else if d == 5 { '5' } else if d == 6 { '6' } else if d == 7 { '7' }
    else if d == 8 { '8' } else { '9' }
}

/// The decimal notation of `n`, without leading zeros.
pub open spec fn decimal(n: nat) -> Seq<char>
    decreases n,
{
    if n < 10 {
        seq![digit(n)]
    } else {
        decimal(n / 10).push(digit(n % 10))
    }
}

/// `n` in decimal, padded with a zero to two digits.
pub open spec fn two_digits(n: nat) -> Seq<char> {
    if n < 10 { seq!['0'].add(decimal(n)) } else { decimal(n) }
}

/// The hour of day, in UTC, of a time given in seconds since the Unix epoch.
pub open spec fn hour_of(t: i64) -> nat {
    ((t as int % 86400) / 3600) as nat
}

/// The minute of the hour of a time given in seconds since the Unix epoch.
pub open spec fn minute_of(t: i64) -> nat {
    ((t as int % 3600) / 60) as nat
}

/// `HH:MM` of a time given in seconds since the Unix epoch.
pub open spec fn clock(t: i64) -> Seq<char> {
    two_digits(hour_of(t)) + seq![':'] + two_digits(minute_of(t))
}

/// Relies on `u64`'s `ToString` (its `Display`): decimal digits, no sign,
/// no leading zeros.
#[verifier::external_body]
pub(crate) fn decimal_string(n: u64) -> (r: String)
    ensures
        r@ == decimal(n as nat),
{
    n.to_string()
}

/// `n` as two decimal digits.
fn two_digit_string(n: u64) -> (r: String)
    requires
        n < 100,
    ensures
        r@ == two_digits(n as nat),
{
    let d = decimal_string(n);
    if n < 10 {
        let mut s = String::from_str("0");
        proof {
            reveal_strlit("0");
        }
        s.append(d.as_str());
        assert(s@ =~= two_digits(n as nat));
        s
    } else {
        d
    }
}

/// `HH:MM` of `t`, in UTC.
pub fn clock_string(t: i64) -> (r: String)
    ensures
        r@ == clock(t),
{
    let day = t % 86400;
    let day: i64 = if day < 0 { day + 86400 } else { day };
    let hour = (day / 3600) as u64;
    let minute = ((day % 3600) / 60) as u64;
    assert(hour as nat == hour_of(t) && minute as nat == minute_of(t)) by (nonlinear_arith)
        requires
            day == t as int % 86400,
            hour == day / 3600,
            minute == (day % 3600) / 60,
    {
    }
    let mut s = two_digit_string(hour);
    let colon = ":";
    proof {
        reveal_strlit(":");
    }
    s.append(colon);
    let m = two_digit_string(minute);
    s.append(m.as_str());
    assert(s@ =~= clock(t));
    s
}

} // verus!
