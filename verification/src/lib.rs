//! Mapping E.164 international phone numbers to ISO 3166-1 alpha-2 country
//! identifiers, and country identifiers to E.164 country calling codes.
//!
//! Calling-code prefixes are one to three digits long and ambiguous without a
//! disambiguation rule, so a phone number is resolved by longest-prefix
//! matching over its leading digits; numbering zone 1 (calling code 1, always
//! followed by a three-digit area code) is looked up under the first four
//! digits read as one key. Both lookups are pure functions over the two
//! compiled-in tables, and malformed input is reported as an absent result,
//! never by panicking.

use vstd::prelude::*;

mod digits;
mod resolve;
mod tables;

use crate::digits::all_digits;
use crate::digits::lemma_digits_value_bounds;
use crate::digits::parse_prefix;
use crate::digits::pow10;
use crate::resolve::longest_match_lookup;
use crate::resolve::spec_country_prefix;
use crate::resolve::spec_phone_country;
use crate::tables::country_prefix_pair;
use crate::tables::prefix_country;

verus! {

/// Converts an E.164 phone number, written as decimal digits without a
/// leading plus sign, into an ISO 3166-1 alpha-2 two-letter country
/// identifier.
///
/// The phone number must have at least ten characters; a shorter one is not
/// resolved. A number with a non-digit among the characters that resolution
/// reads is malformed and yields `None` rather than a panic.
pub fn e164_number_to_iso3166(phone: &str) -> (r: Option<&'static str>)
    ensures
        r == spec_phone_country(phone@),
        phone@.len() < 10 ==> r is None,
        phone@.len() >= 10 && phone@[0] == '1' && !all_digits(phone@.take(4)) ==> r is None,
        phone@.len() >= 10 && phone@[0] != '1' && !all_digits(phone@.take(6)) ==> r is None,
{
    let n = phone.unicode_len();
    if n < 10 {
        return None;
    }
    let head = phone.get_char(0);
    if head == '1' {
        match parse_prefix(phone, 4) {
            Some(p) => {
                proof {
                    lemma_digits_value_bounds(phone@.take(4));
                    assert(pow10(4) == 10000) by {
                        assert(pow10(0) == 1);
                        assert(pow10(1) == 10);
                        assert(pow10(2) == 100);
                        assert(pow10(3) == 1000);
                        assert(pow10(4) == 10000);
                    }
                }
                prefix_country(p)
            },
            None => None,
        }
    } else {
        match parse_prefix(phone, 6) {
            Some(_) => longest_match_lookup(phone),
            None => None,
        }
    }
}

/// Converts an ISO 3166-1 alpha-2 two-letter country identifier to its E.164
/// country calling code.
///
/// The lookup is an exact match: no case folding or trimming is applied, so
/// any needed normalisation is the caller's responsibility. Returns `None`
/// when the identifier is not in the table.
pub fn iso3166_to_e164_country_code(code: &str) -> (r: Option<u32>)
    ensures
        r == spec_country_prefix(code@),
{
    if code.unicode_len() == 2 {
        country_prefix_pair(code.get_char(0), code.get_char(1))
    } else {
        None
    }
}

} // verus!
