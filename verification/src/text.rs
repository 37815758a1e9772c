//! Decimal rendering of integers into text.

use vstd::prelude::*;

verus! {

/// The decimal digit characters, indexed by value.
pub open spec fn digit_char(d: nat) -> char
    recommends
        d < 10,
{
    seq!['0', '1', '2', '3', '4', '5', '6', '7', '8', '9'][d as int]
}

/// Decimal notation of `n`, without leading zeros.
pub open spec fn decimal(n: nat) -> Seq<char>
    decreases n,
{
    if n < 10 {
        seq![digit_char(n)]
    } else {
        decimal(n / 10).push(digit_char(n % 10))
    }
}

/// Decimal notation of `n`, padded with a leading zero to at least two digits.
pub open spec fn two_digits(n: nat) -> Seq<char> {
    if n < 10 {
        seq!['0'] + decimal(n)
    } else {
        decimal(n)
    }
}

/// Decimal notation of a signed integer, with a leading `-` when negative.
pub open spec fn signed_decimal(i: int) -> Seq<char> {
    if i < 0 {
        seq!['-'] + decimal((-i) as nat)
    } else {
        decimal(i as nat)
    }
}

fn digit_str(d: u64) -> (text: &'static str)
    requires
        d < 10,
    ensures
        text@ == seq![digit_char(d as nat)],
{
    proof {
        reveal_strlit("0");
        reveal_strlit("1");
        reveal_strlit("2");
        reveal_strlit("3");
        reveal_strlit("4");
        reveal_strlit("5");
        reveal_strlit("6");
        reveal_strlit("7");
        reveal_strlit("8");
        reveal_strlit("9");
    }
    let text = match d {
        0 => "0",
        1 => "1",
        2 => "2",
        3 => "3",
        4 => "4",
        5 => "5",
        6 => "6",
        7 => "7",
        8 => "8",
        _ => "9",
    };
    assert(text@ =~= seq![digit_char(d as nat)]);
    text
}

pub(crate) fn push_decimal(out: &mut String, n: u64)
    ensures
        final(out)@ == old(out)@ + decimal(n as nat),
    decreases n,
{
    if n >= 10 {
        push_decimal(out, n / 10);
    }
    out.append(digit_str(n % 10));
    proof {
        if n >= 10 {
            assert(old(out)@ + decimal((n / 10) as nat) + seq![digit_char((n % 10) as nat)]
                =~= old(out)@ + decimal(n as nat));
        } else {
            assert(decimal(n as nat) == seq![digit_char(n as nat)]);
        }
    }
}

pub(crate) fn push_signed_decimal(out: &mut String, i: i64)
    ensures
        final(out)@ == old(out)@ + signed_decimal(i as int),
{
    if i < 0 {
        out.append("-");
        let magnitude: u64 = if i == i64::MIN {
            9_223_372_036_854_775_808u64
        } else {
            (-i) as u64
        };
        push_decimal(out, magnitude);
        proof {
            reveal_strlit("-");
            assert(old(out)@ + "-"@ + decimal(magnitude as nat) =~= old(out)@ + signed_decimal(
                i as int,
            ));
        }
    } else {
        push_decimal(out, i as u64);
    }
}

/// The value of a digit character (`'0'` is 0, `'9'` is 9); other characters
/// fall outside `0..10`.
pub open spec fn digit_value(c: char) -> int {
    (c as int) - ('0' as int)
}

/// `c` is one of `'0'..='9'`.
pub open spec fn is_digit(c: char) -> bool {
    0 <= digit_value(c) < 10
}

/// The number a string of digits denotes, read in base ten.
pub open spec fn digits_value(s: Seq<char>) -> int
    decreases s.len(),
{
    if s.len() == 0 {
        0
    } else {
        digits_value(s.drop_last()) * 10 + digit_value(s.last())
    }
}

/// The number a decimal notation with an optional leading `-` denotes.
pub open spec fn signed_value(s: Seq<char>) -> int {
    if s.len() > 0 && s[0] == '-' {
        -digits_value(s.drop_first())
    } else {
        digits_value(s)
    }
}

proof fn lemma_digit_char_value(d: nat)
    requires
        d < 10,
    ensures
        digit_value(digit_char(d)) == d,
{
    let table = seq!['0', '1', '2', '3', '4', '5', '6', '7', '8', '9'];
    assert(table[0] == '0' && table[1] == '1' && table[2] == '2' && table[3] == '3');
    assert(table[4] == '4' && table[5] == '5' && table[6] == '6' && table[7] == '7');
    assert(table[8] == '8' && table[9] == '9');
}

/// `decimal(n)` is a non-empty string of digits, without a leading zero unless
/// it is `0` itself, and it reads back as `n`.
pub proof fn lemma_decimal_reads_back(n: nat)
    ensures
        decimal(n).len() > 0,
        forall|i: int| 0 <= i < decimal(n).len() ==> is_digit(#[trigger] decimal(n)[i]),
        n > 0 ==> decimal(n)[0] != '0',
        digits_value(decimal(n)) == n,
    decreases n,
{
    if n < 10 {
        lemma_digit_char_value(n);
        assert(decimal(n).drop_last() =~= Seq::<char>::empty());
        assert(digits_value(Seq::<char>::empty()) == 0);
        assert(digits_value(decimal(n)) == digits_value(decimal(n).drop_last()) * 10
            + digit_value(decimal(n).last()));
    } else {
        lemma_decimal_reads_back(n / 10);
        lemma_digit_char_value(n % 10);
        let prefix = decimal(n / 10);
        assert(decimal(n) == prefix.push(digit_char(n % 10)));
        assert(decimal(n).drop_last() =~= prefix);
        assert forall|i: int| 0 <= i < decimal(n).len() implies is_digit(#[trigger] decimal(n)[i]) by {
            if i < prefix.len() {
                assert(decimal(n)[i] == prefix[i]);
            }
        }
        assert(decimal(n)[0] == prefix[0]);
        assert(digits_value(decimal(n)) == digits_value(prefix) * 10 + digit_value(
            digit_char(n % 10),
        ));
        assert((n / 10) * 10 + n % 10 == n) by (nonlinear_arith);
    }
}

/// Different numbers have different decimal notations.
pub proof fn lemma_decimal_injective(a: nat, b: nat)
    requires
        decimal(a) == decimal(b),
    ensures
        a == b,
{
    lemma_decimal_reads_back(a);
    lemma_decimal_reads_back(b);
}

/// `signed_decimal(i)` is a `-` (exactly when `i` is negative) followed by
/// digits, and it reads back as `i`.
pub proof fn lemma_signed_decimal_reads_back(i: int)
    ensures
        signed_decimal(i).len() > 0,
        (signed_decimal(i)[0] == '-') == (i < 0),
        forall|k: int|
            (if i < 0 {
                1int
            } else {
                0int
            }) <= k < signed_decimal(i).len() ==> is_digit(#[trigger] signed_decimal(i)[k]),
        signed_value(signed_decimal(i)) == i,
{
    if i < 0 {
        let digits = decimal((-i) as nat);
        lemma_decimal_reads_back((-i) as nat);
        assert(signed_decimal(i).drop_first() =~= digits);
        assert forall|k: int| 1 <= k < signed_decimal(i).len() implies is_digit(
            #[trigger] signed_decimal(i)[k],
        ) by {
            assert(signed_decimal(i)[k] == digits[k - 1]);
        }
    } else {
        lemma_decimal_reads_back(i as nat);
        assert(is_digit(decimal(i as nat)[0]));
    }
}

/// Different integers have different signed decimal notations.
pub proof fn lemma_signed_decimal_injective(a: int, b: int)
    requires
        signed_decimal(a) == signed_decimal(b),
    ensures
        a == b,
{
    lemma_signed_decimal_reads_back(a);
    lemma_signed_decimal_reads_back(b);
}

/// `two_digits(n)` is a string of digits reading back as `n`, two characters
/// long for every `n` below 100.
pub proof fn lemma_two_digits_reads_back(n: nat)
    ensures
        forall|i: int| 0 <= i < two_digits(n).len() ==> is_digit(#[trigger] two_digits(n)[i]),
        digits_value(two_digits(n)) == n,
        n < 100 ==> two_digits(n).len() == 2,
{
    lemma_decimal_reads_back(n);
    if n < 10 {
        let t = two_digits(n);
        assert(t =~= seq!['0', decimal(n)[0]]);
        assert(t.drop_last() =~= seq!['0']);
        assert(seq!['0'].drop_last() =~= Seq::<char>::empty());
        assert(decimal(n).drop_last() =~= Seq::<char>::empty());
        assert(digits_value(Seq::<char>::empty()) == 0);
        assert(digits_value(decimal(n)) == digit_value(decimal(n)[0]));
        assert(digits_value(seq!['0']) == digits_value(seq!['0'].drop_last()) * 10 + digit_value(
            '0',
        ));
        assert(digits_value(t) == digits_value(t.drop_last()) * 10 + digit_value(t.last()));
        assert(is_digit(decimal(n)[0]));
    } else if n < 100 {
        lemma_decimal_reads_back(n / 10);
        assert(decimal(n / 10).len() == 1);
    }
}

} // verus!
