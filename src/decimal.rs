use vstd::prelude::*;

verus! {

/// The decimal digit `d` (0 to 9).
pub open spec fn digit(d: nat) -> Seq<char> {
    if d == 0 {
        "0"@
    } else if d == 1 {
        "1"@
    } else if d == 2 {
        "2"@
    } else if d == 3 {
        "3"@
    } else if d == 4 {
        "4"@
    } else if d == 5 {
        "5"@
    } else if d == 6 {
        "6"@
    } else if d == 7 {
        "7"@
    } else if d == 8 {
        "8"@
    } else {
        "9"@
    }
}

/// The decimal notation of `n`, without leading zeros.
pub open spec fn decimal(n: nat) -> Seq<char>
    decreases n,
{
    if n < 10 {
        digit(n)
    } else {
        decimal(n / 10) + digit(n % 10)
    }
}

/// Appends the decimal notation of `n` to `out`.
pub fn push_decimal(out: &mut String, n: u32)
    ensures
        final(out)@ == old(out)@ + decimal(n as nat),
    decreases n,
{
    let digits: [&str; 10] = ["0", "1", "2", "3", "4", "5", "6", "7", "8", "9"];
    if n >= 10 {
        push_decimal(out, n / 10);
    }
    let d = n % 10;
    assert(digits[d as int]@ == digit(d as nat));
    out.append(digits[d as usize]);
    assert(decimal(n as nat) == if n < 10 {
        digit(n as nat)
    } else {
        decimal((n / 10) as nat) + digit((n % 10) as nat)
    });
}

/// Appends `n` (below 100) as exactly two decimal digits, with a leading
/// zero below ten.
pub fn push_two_digits(out: &mut String, n: u32)
    requires
        n < 100,
    ensures
        final(out)@ == old(out)@ + digit((n / 10) as nat) + digit((n % 10) as nat),
{
    let digits: [&str; 10] = ["0", "1", "2", "3", "4", "5", "6", "7", "8", "9"];
    let tens = n / 10;
    let ones = n % 10;
    assert(digits[tens as int]@ == digit(tens as nat));
    assert(digits[ones as int]@ == digit(ones as nat));
    out.append(digits[tens as usize]);
    out.append(digits[ones as usize]);
}

} // verus!
