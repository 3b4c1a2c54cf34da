use vstd::prelude::*;

verus! {

/// Decimal digit character of `d` (for `d < 10`).
pub open spec fn digit_char(d: nat) -> char {
    ((d + 48) as u8) as char
}

/// Decimal text of a natural number, without leading zeros.
pub open spec fn decimal(n: nat) -> Seq<char>
    decreases n,
{
    if n < 10 {
        seq![digit_char(n)]
    } else {
        decimal(n / 10) + seq![digit_char(n % 10)]
    }
}

/// Relies on String::push: the character is appended at the end.
#[verifier::external_body]
pub(crate) fn push_char(s: &mut String, c: char)
    ensures
        final(s)@ == old(s)@.push(c),
{
    s.push(c)
}

pub(crate) fn push_decimal(s: &mut String, n: u8)
    ensures
        final(s)@ == old(s)@ + decimal(n as nat),
{
    if n >= 100 {
        push_char(s, ((n / 100) + 48) as char);
    }
    if n >= 10 {
        push_char(s, ((n / 10) % 10 + 48) as char);
    }
    push_char(s, (n % 10 + 48) as char);
    proof {
        let x = n as nat;
        if x >= 100 {
            assert(decimal(x) == decimal(x / 10) + seq![digit_char(x % 10)]);
            assert(decimal(x / 10) == decimal(x / 100) + seq![digit_char((x / 10) % 10)]);
        } else if x >= 10 {
            assert(decimal(x) == decimal(x / 10) + seq![digit_char(x % 10)]);
        }
    }
    assert(s@ =~= old(s)@ + decimal(n as nat));
}

} // verus!
