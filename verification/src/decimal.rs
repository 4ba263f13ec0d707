//! Decimal rendering of integers into text.

use vstd::prelude::*;

verus! {

/// The character of a decimal digit.
pub open spec fn digit_char(d: nat) -> char
    recommends
        d < 10,
{
    (d + 48) as char
}

/// The decimal digits of a natural number, most significant first, without
/// leading zeros (zero itself is the single digit `0`).
pub open spec fn decimal(n: nat) -> Seq<char>
    decreases n,
{
    if n < 10 {
        seq![digit_char(n)]
    } else {
        decimal(n / 10).push(digit_char(n % 10))
    }
}

/// The decimal text of an integer: a minus sign before the digits of a
/// negative number.
pub open spec fn signed_decimal(n: int) -> Seq<char> {
    if n < 0 {
        seq!['-'] + decimal((-n) as nat)
    } else {
        decimal(n as nat)
    }
}

/// Whether every character of `s` is an ASCII decimal digit and there is at
/// least one.
pub open spec fn is_numeral(s: Seq<char>) -> bool {
    s.len() > 0 && forall|i: int| 0 <= i < s.len() ==> '0' <= #[trigger] s[i] && s[i] <= '9'
}

/// The number that a decimal numeral reads as, digit by digit from the
/// most significant.
pub open spec fn numeral_value(s: Seq<char>) -> int
    decreases s.len(),
{
    if s.len() == 0 {
        0
    } else {
        numeral_value(s.drop_last()) * 10 + (s.last() as int - 48)
    }
}

/// The decimal text of a natural number is a numeral that reads back as
/// that number.
pub proof fn law_decimal_reads_back(n: nat)
    ensures
        is_numeral(decimal(n)),
        numeral_value(decimal(n)) == n,
    decreases n,
{
    if n >= 10 {
        law_decimal_reads_back(n / 10);
        let s = decimal(n);
        assert(s.drop_last() =~= decimal(n / 10));
        assert(s.last() == digit_char(n % 10));
        assert(digit_char(n % 10) as int == n % 10 + 48);
        assert(numeral_value(s) == numeral_value(decimal(n / 10)) * 10 + (n % 10));
        assert forall|i: int| 0 <= i < s.len() implies '0' <= #[trigger] s[i] && s[i] <= '9' by {
            if i < s.len() - 1 {
                assert(s[i] == decimal(n / 10)[i]);
            }
        }
    } else {
        assert(decimal(n).drop_last() =~= Seq::<char>::empty());
        assert(digit_char(n) as int == n + 48);
        assert(numeral_value(decimal(n).drop_last()) == 0);
    }
}

/// `t` writes the integer `n`: a numeral reading back as `n` when `n` is not
/// negative, otherwise a minus sign and a numeral reading back as `-n`.
pub open spec fn writes_integer(t: Seq<char>, n: int) -> bool {
    if n >= 0 {
        is_numeral(t) && numeral_value(t) == n
    } else {
        t.len() > 0 && t[0] == '-' && is_numeral(t.drop_first()) && numeral_value(t.drop_first())
            == -n
    }
}

/// The decimal text of an integer: a numeral reading back as the number when
/// it is not negative; otherwise a minus sign followed by a numeral reading
/// back as its magnitude.
pub proof fn law_signed_decimal_reads_back(n: int)
    ensures
        n >= 0 ==> is_numeral(signed_decimal(n)) && numeral_value(signed_decimal(n)) == n,
        n < 0 ==> signed_decimal(n).len() > 0 && signed_decimal(n)[0] == '-' && is_numeral(
            signed_decimal(n).drop_first(),
        ) && numeral_value(signed_decimal(n).drop_first()) == -(n as int),
{
    if n >= 0 {
        law_decimal_reads_back(n as nat);
    } else {
        law_decimal_reads_back((-n) as nat);
        assert(signed_decimal(n).drop_first() =~= decimal((-n) as nat));
    }
}

/// The text of one decimal digit.
fn digit_str(d: u128) -> (s: &'static str)
    requires
        d < 10,
    ensures
        s@ == seq![digit_char(d as nat)],
{
    proof {
        reveal_strlit("0");
        reveal_strlit("1");
        reveal_strlit("2");
        reveal_strlit("3");
        reveal_strlit("4");
        reveal_strlit("5");
        reveal_strlit("6");
        reveal_strlit("7");
        reveal_strlit("8");
        reveal_strlit("9");
    }
    if d == 0 {
        "0"
    } else if d == 1 {
        "1"
    } else if d == 2 {
        "2"
    } else if d == 3 {
        "3"
    } else if d == 4 {
        "4"
    } else if d == 5 {
        "5"
    } else if d == 6 {
        "6"
    } else if d == 7 {
        "7"
    } else if d == 8 {
        "8"
    } else {
        "9"
    }
}

/// Appends the decimal digits of `n` to `s`.
pub fn push_decimal(s: &mut String, n: u128)
    ensures
        final(s)@ == old(s)@ + decimal(n as nat),
        is_numeral(final(s)@.subrange(old(s)@.len() as int, final(s)@.len() as int)),
        numeral_value(final(s)@.subrange(old(s)@.len() as int, final(s)@.len() as int)) == n,
    decreases n,
{
    if n >= 10 {
        push_decimal(s, n / 10);
    }
    let d = digit_str(n % 10);
    s.append(d);
    assert(s@ =~= old(s)@ + decimal(n as nat));
    proof {
        law_decimal_reads_back(n as nat);
        assert(s@.subrange(old(s)@.len() as int, s@.len() as int) =~= decimal(n as nat));
    }
}

/// Appends the decimal text of a signed number to `s`.
pub fn push_signed_decimal(s: &mut String, n: i128)
    ensures
        final(s)@ == old(s)@ + signed_decimal(n as int),
        n >= 0 ==> is_numeral(final(s)@.subrange(old(s)@.len() as int, final(s)@.len() as int))
            && numeral_value(final(s)@.subrange(old(s)@.len() as int, final(s)@.len() as int)) == n,
        n < 0 ==> final(s)@.len() > old(s)@.len() && final(s)@[old(s)@.len() as int] == '-'
            && is_numeral(final(s)@.subrange(old(s)@.len() as int + 1, final(s)@.len() as int))
            && numeral_value(final(s)@.subrange(old(s)@.len() as int + 1, final(s)@.len() as int)) == -(n as int),
{
    if n < 0 {
        proof {
            reveal_strlit("-");
        }
        s.append("-");
        let magnitude: u128 = ((-(n + 1)) as u128) + 1;
        push_decimal(s, magnitude);
        assert(s@ =~= old(s)@ + signed_decimal(n as int));
        proof {
            law_signed_decimal_reads_back(n as int);
            assert(s@.subrange(old(s)@.len() as int + 1, s@.len() as int) =~= signed_decimal(
                n as int,
            ).drop_first());
            assert(s@[old(s)@.len() as int] == signed_decimal(n as int)[0]);
        }
    } else {
        push_decimal(s, n as u128);
    }
}

} // verus!
