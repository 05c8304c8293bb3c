//! Decimal digit strings: what it means for a character to be a digit, the
//! numeric value of a digit string, and a verified parser for the leading
//! digits of a phone number.

use vstd::prelude::*;

verus! {

/// A decimal digit character, `'0'` through `'9'`.
pub open spec fn is_digit_char(c: char) -> bool {
    48 <= c as int && c as int <= 57
}

/// The numeric value of a single digit character.
pub open spec fn digit_val(c: char) -> int {
    c as int - 48
}

/// Every character of the string is a decimal digit.
pub open spec fn all_digits(s: Seq<char>) -> bool {
    forall|i: int| 0 <= i < s.len() ==> is_digit_char(#[trigger] s[i])
}

/// The numeric value of a digit string read in base ten; the empty string
/// reads as zero.
pub open spec fn digits_value(s: Seq<char>) -> int
    decreases s.len(),
{
    if s.len() == 0 {
        0
    } else {
        10 * digits_value(s.drop_last()) + digit_val(s.last())
    }
}

/// Ten raised to the given power.
pub open spec fn pow10(n: nat) -> int
    decreases n,
{
    if n == 0 {
        1
    } else {
        10 * pow10((n - 1) as nat)
    }
}

/// Powers of ten are positive and grow with the exponent.
pub proof fn lemma_pow10_monotonic(a: nat, b: nat)
    requires
        a <= b,
    ensures
        0 < pow10(a) <= pow10(b),
    decreases b,
{
    if b > 0 {
        if a <= b - 1 {
            lemma_pow10_monotonic(a, (b - 1) as nat);
        } else {
            lemma_pow10_monotonic((a - 1) as nat, (b - 1) as nat);
        }
    }
}

/// A string of n digits reads as a value below ten to the n.
pub proof fn lemma_digits_value_bounds(s: Seq<char>)
    requires
        all_digits(s),
    ensures
        0 <= digits_value(s) < pow10(s.len()),
    decreases s.len(),
{
    if s.len() > 0 {
        assert(all_digits(s.drop_last())) by {
            assert(forall|i: int|
                0 <= i < s.len() - 1 ==> s.drop_last()[i] == #[trigger] s[i]);
        }
        lemma_digits_value_bounds(s.drop_last());
        lemma_pow10_monotonic((s.len() - 1) as nat, s.len());
    }
}

/// A prefix of an all-digit string is an all-digit string.
pub proof fn lemma_all_digits_take(s: Seq<char>, m: int, n: int)
    requires
        0 <= m <= n <= s.len(),
        all_digits(s.take(n)),
    ensures
        all_digits(s.take(m)),
{
    assert(forall|i: int| 0 <= i < m ==> s.take(m)[i] == #[trigger] s.take(n)[i]);
}

/// The digit character for a value of zero through nine.
pub open spec fn digit_char(d: int) -> char {
    if d == 0 {
        '0'
    } else if d == 1 {
        '1'
    } else if d == 2 {
        '2'
    } else if d == 3 {
        '3'
    } else if d == 4 {
        '4'
    } else if d == 5 {
        '5'
    } else if d == 6 {
        '6'
    } else if d == 7 {
        '7'
    } else if d == 8 {
        '8'
    } else {
        '9'
    }
}

/// The decimal digit string of a positive number, without leading zeros.
pub open spec fn decimal_digits(p: int) -> Seq<char>
    decreases p,
{
    if p <= 0 {
        Seq::empty()
    } else if p < 10 {
        seq![digit_char(p)]
    } else {
        decimal_digits(p / 10).push(digit_char(p % 10))
    }
}

/// The leading decimal digit of a positive number.
pub open spec fn first_digit(p: int) -> int
    decreases p,
{
    if p < 10 {
        p
    } else {
        first_digit(p / 10)
    }
}

/// The digit string of a positive number is made of digits, reads back as
/// that number, and starts with its leading digit.
pub proof fn lemma_decimal_digits(p: int)
    requires
        1 <= p,
    ensures
        all_digits(decimal_digits(p)),
        digits_value(decimal_digits(p)) == p,
        decimal_digits(p).len() >= 1,
        decimal_digits(p)[0] == digit_char(first_digit(p)),
    decreases p,
{
    if p < 10 {
        reveal_with_fuel(digits_value, 3);
        assert(decimal_digits(p) =~= seq![digit_char(p)]);
        assert(decimal_digits(p).drop_last() =~= Seq::<char>::empty());
        assert(digits_value(decimal_digits(p)) == digit_val(digit_char(p)));
    } else {
        lemma_decimal_digits(p / 10);
        let head = decimal_digits(p / 10);
        assert(decimal_digits(p) == head.push(digit_char(p % 10)));
        assert(decimal_digits(p).drop_last() =~= head);
        assert(decimal_digits(p).last() == digit_char(p % 10));
        assert(digits_value(decimal_digits(p)) == 10 * (p / 10) + digit_val(digit_char(p % 10)));
        assert(forall|i: int|
            0 <= i < decimal_digits(p).len() ==> is_digit_char(#[trigger] decimal_digits(p)[i]))
            by {
            assert(forall|i: int| 0 <= i < head.len() ==> decimal_digits(p)[i] == #[trigger] head[i]);
        }
        assert(decimal_digits(p)[0] == head[0]);
    }
}

/// A number of at most three digits has a digit string of at most three
/// characters.
pub proof fn lemma_decimal_digits_len(p: int)
    requires
        1 <= p <= 999,
    ensures
        1 <= decimal_digits(p).len() <= 3,
{
    reveal_with_fuel(decimal_digits, 4);
    if p >= 10 {
        if p >= 100 {
            assert(decimal_digits(p / 10 / 10).len() == 1);
        }
    }
}

/// Reads the first `n` characters of `phone` as a decimal number. Returns
/// `None` when a non-digit stands among them: malformed input is reported,
/// never a reason to panic.
pub fn parse_prefix(phone: &str, n: usize) -> (r: Option<u32>)
    requires
        n <= phone@.len(),
        n <= 7,
    ensures
        r is Some <==> all_digits(phone@.take(n as int)),
        r is Some ==> r == Some(digits_value(phone@.take(n as int)) as u32),
        r is Some ==> digits_value(phone@.take(n as int)) < pow10(n as nat),
{
    let mut i: usize = 0;
    let mut acc: u32 = 0;
    while i < n
        invariant
            0 <= i <= n,
            n <= phone@.len(),
            n <= 7,
            all_digits(phone@.take(i as int)),
            acc == digits_value(phone@.take(i as int)),
            acc < pow10(i as nat),
        decreases n - i,
    {
        let c = phone.get_char(i);
        let v = c as u32;
        if v < 48 || v > 57 {
            proof {
                assert(phone@.take(n as int)[i as int] == phone@[i as int]);
                assert(!is_digit_char(phone@[i as int]));
            }
            return None;
        }
        proof {
            lemma_pow10_monotonic(i as nat, 6);
            assert(pow10(6) == 1000000) by {
                assert(pow10(0) == 1);
                assert(pow10(1) == 10);
                assert(pow10(2) == 100);
                assert(pow10(3) == 1000);
                assert(pow10(4) == 10000);
                assert(pow10(5) == 100000);
                assert(pow10(6) == 1000000);
            }
        }
        acc = acc * 10 + (v - 48);
        i = i + 1;
        proof {
            assert(phone@.take(i as int).drop_last() =~= phone@.take(i - 1));
            assert(phone@.take(i as int).last() == phone@[i - 1]);
        }
    }
    proof {
        assert(phone@.take(n as int) =~= phone@.take(i as int));
        lemma_digits_value_bounds(phone@.take(n as int));
    }
    Some(acc)
}

} // verus!
