//! The prefix-matching core: longest-prefix matching over the first digits of
//! a phone number, with fallback to shorter candidates, and the two
//! resolution functions stated over it.

use vstd::prelude::*;
use crate::digits::all_digits;
use crate::digits::decimal_digits;
use crate::digits::digit_char;
use crate::digits::digits_value;
use crate::digits::first_digit;
use crate::digits::is_digit_char;
use crate::digits::lemma_decimal_digits;
use crate::digits::lemma_decimal_digits_len;
use crate::digits::lemma_all_digits_take;
use crate::digits::lemma_digits_value_bounds;
use crate::digits::lemma_pow10_monotonic;
use crate::digits::parse_prefix;
use crate::digits::pow10;
use crate::tables::prefix_country;
use crate::tables::spec_country_prefix_pair;
use crate::tables::spec_prefix_country;

verus! {

/// The longest candidate length, at most `n` and at least one, whose leading
/// digit run reads as a key of the prefix table; zero when every candidate
/// length from `n` down to one misses.
pub open spec fn match_length(phone: Seq<char>, n: int) -> int
    decreases n,
{
    if n <= 0 {
        0
    } else if spec_prefix_country(digits_value(phone.take(n))) is Some {
        n
    } else {
        match_length(phone, n - 1)
    }
}

/// What resolving a phone number returns.
///
/// A phone number of fewer than ten characters is never resolved. A number
/// whose first character is `1` belongs to numbering zone 1 and is looked up
/// under its first four digits read as one key. Any other number is looked up
/// under the longest of its leading digit runs, at most six characters long,
/// that is a key of the prefix table. A non-digit among the characters so
/// read makes the number malformed, and a malformed number is not resolved.
pub open spec fn spec_phone_country(phone: Seq<char>) -> Option<&'static str> {
    if phone.len() < 10 {
        None
    } else if phone[0] == '1' {
        if all_digits(phone.take(4)) {
            spec_prefix_country(digits_value(phone.take(4)))
        } else {
            None
        }
    } else if all_digits(phone.take(6)) {
        if match_length(phone, 6) == 0 {
            None
        } else {
            spec_prefix_country(digits_value(phone.take(match_length(phone, 6))))
        }
    } else {
        None
    }
}

/// What resolving a country identifier returns: the table entry for a
/// two-character identifier, `None` for input of any other length.
pub open spec fn spec_country_prefix(code: Seq<char>) -> Option<u32> {
    if code.len() == 2 {
        spec_country_prefix_pair(code[0], code[1])
    } else {
        None
    }
}

/// Tries the candidate lengths six down to one and returns the table entry of
/// the first hit, as `spec_phone_country` describes for numbers outside
/// numbering zone 1.
pub(crate) fn longest_match_lookup(phone: &str) -> (r: Option<&'static str>)
    requires
        phone@.len() >= 10,
        phone@[0] != '1',
        all_digits(phone@.take(6)),
    ensures
        r == spec_phone_country(phone@),
{
    let mut l: usize = 6;
    while l >= 1
        invariant
            phone@.len() >= 10,
            phone@[0] != '1',
            all_digits(phone@.take(6)),
            l <= 6,
            match_length(phone@, 6) == match_length(phone@, l as int),
        decreases l,
    {
        proof {
            lemma_all_digits_take(phone@, l as int, 6);
            lemma_digits_value_bounds(phone@.take(l as int));
            lemma_pow10_monotonic(l as nat, 6);
            assert(pow10(6) == 1000000) by {
                assert(pow10(0) == 1);
                assert(pow10(1) == 10);
                assert(pow10(2) == 100);
                assert(pow10(3) == 1000);
                assert(pow10(4) == 10000);
                assert(pow10(5) == 100000);
                assert(pow10(6) == 1000000);
            }
        }
        let parsed = parse_prefix(phone, l);
        let v = parsed.unwrap();
        let res = prefix_country(v);
        if res.is_some() {
            proof {
                assert(v as int == digits_value(phone@.take(l as int)));
                assert(match_length(phone@, l as int) == l as int);
            }
            return res;
        }
        l = l - 1;
    }
    None
}

/// The matched length never exceeds the window length.
pub proof fn lemma_match_length_bounds(phone: Seq<char>, n: int)
    requires
        0 <= n,
    ensures
        0 <= match_length(phone, n) <= n,
    decreases n,
{
    if n > 0 {
        lemma_match_length_bounds(phone, n - 1);
    }
}

/// A positive matched length marks a hit: the digits it selects read as a
/// key of the prefix table.
pub proof fn lemma_match_length_hit(phone: Seq<char>, n: int)
    requires
        1 <= match_length(phone, n),
    ensures
        spec_prefix_country(digits_value(phone.take(match_length(phone, n)))) is Some,
    decreases n,
{
    if n > 0 && spec_prefix_country(digits_value(phone.take(n))) is None {
        lemma_match_length_hit(phone, n - 1);
    }
}

/// The matched length is the longest hit: it is no shorter than any
/// candidate length whose digits read as a key of the prefix table.
pub proof fn lemma_match_length_at_least(phone: Seq<char>, n: int, k: int)
    requires
        1 <= k <= n,
        spec_prefix_country(digits_value(phone.take(k))) is Some,
    ensures
        k <= match_length(phone, n),
    decreases n,
{
    if k < n {
        lemma_match_length_at_least(phone, n - 1, k);
    }
}

/// Longest match wins: when the first two digits of a phone number read as a
/// key of the prefix table, resolution never falls back to the one-digit
/// candidate, whether or not that candidate is itself a key. The matched
/// length is at least two, and the result is the table entry of the longest
/// matching candidate.
pub proof fn lemma_two_digit_key_beats_one_digit(phone: Seq<char>)
    requires
        phone.len() >= 10,
        phone[0] != '1',
        all_digits(phone.take(6)),
        spec_prefix_country(digits_value(phone.take(2))) is Some,
    ensures
        2 <= match_length(phone, 6),
        spec_phone_country(phone) == spec_prefix_country(
            digits_value(phone.take(match_length(phone, 6))),
        ),
        spec_phone_country(phone) is Some,
{
    lemma_match_length_at_least(phone, 6, 2);
    lemma_match_length_bounds(phone, 6);
    lemma_match_length_hit(phone, 6);
}

/// A phone number outside numbering zone 1 whose window of leading digits
/// contains some key of the prefix table is resolved to a country.
pub proof fn lemma_key_in_window_resolves(phone: Seq<char>, k: int)
    requires
        phone.len() >= 10,
        phone[0] != '1',
        all_digits(phone.take(6)),
        1 <= k <= 6,
        spec_prefix_country(digits_value(phone.take(k))) is Some,
    ensures
        spec_phone_country(phone) is Some,
{
    lemma_match_length_at_least(phone, 6, k);
    lemma_match_length_bounds(phone, 6);
    lemma_match_length_hit(phone, 6);
}

/// Every calling code in the country table other than 1 lies between 2 and
/// 999, does not begin with the digit 1, and is itself a key of the prefix
/// table.
#[verifier::rlimit(100)]
pub proof fn lemma_country_codes_are_prefix_keys(a: char, b: char, p: u32)
    requires
        spec_country_prefix_pair(a, b) == Some(p),
        p != 1,
    ensures
        2 <= p <= 999,
        first_digit(p as int) != 1,
        spec_prefix_country(p as int) is Some,
{
    reveal_with_fuel(first_digit, 4);
}

/// Round trip: for every entry of the country table, the country's calling
/// code extended with enough further digits forms a phone number that is
/// resolved to a country — not necessarily the same country, since a calling
/// code can be shared by several territories.
pub proof fn lemma_country_prefix_round_trip(a: char, b: char, p: u32)
    requires
        spec_country_prefix_pair(a, b) == Some(p),
    ensures
        exists|tail: Seq<char>|
            all_digits(tail) && #[trigger] spec_phone_country(
                decimal_digits(p as int) + tail,
            ) is Some,
{
    if p == 1 {
        let tail = seq!['2', '0', '6', '9', '3', '5', '9', '2', '9', '0'];
        let phone = decimal_digits(1) + tail;
        assert(decimal_digits(1) =~= seq!['1']);
        assert(phone =~= seq!['1', '2', '0', '6', '9', '3', '5', '9', '2', '9', '0']);
        assert(all_digits(tail));
        assert(phone.take(4) =~= seq!['1', '2', '0', '6']);
        assert(digits_value(phone.take(4)) == 1206) by {
            reveal_with_fuel(digits_value, 5);
            assert(phone.take(4).drop_last() =~= seq!['1', '2', '0']);
            assert(seq!['1', '2', '0'].drop_last() =~= seq!['1', '2']);
            assert(seq!['1', '2'].drop_last() =~= seq!['1']);
            assert(seq!['1'].drop_last() =~= Seq::<char>::empty());
        }
        assert(all_digits(phone.take(4)));
        assert(spec_prefix_country(1206) is Some);
        assert(spec_phone_country(phone) is Some);
    } else {
        lemma_country_codes_are_prefix_keys(a, b, p);
        let tail = seq!['0', '0', '0', '0', '0', '0', '0', '0', '0', '0'];
        let phone = decimal_digits(p as int) + tail;
        lemma_decimal_digits(p as int);
        lemma_decimal_digits_len(p as int);
        assert(all_digits(tail));
        let k: int = decimal_digits(p as int).len() as int;
        assert(phone.take(k) =~= decimal_digits(p as int));
        assert(phone[0] == decimal_digits(p as int)[0]);
        assert(digit_char(first_digit(p as int)) != '1');
        assert(all_digits(phone)) by {
            assert(forall|i: int|
                0 <= i < k ==> phone[i] == #[trigger] decimal_digits(p as int)[i]);
            assert(forall|i: int| k <= i < phone.len() ==> #[trigger] phone[i] == tail[i - k]);
            assert(forall|i: int| 0 <= i < tail.len() ==> is_digit_char(#[trigger] tail[i]));
        }
        assert(all_digits(phone.take(6))) by {
            assert(forall|i: int| 0 <= i < 6 ==> phone.take(6)[i] == #[trigger] phone[i]);
        }
        assert(spec_prefix_country(digits_value(phone.take(k))) is Some);
        lemma_key_in_window_resolves(phone, k);
    }
}

} // verus!
