//! Peer comparability read from industry and business description.

use vstd::prelude::*;

use crate::financial_company::{opt_str_text};
use crate::text::{chars_of, contains_seq, contains_str, lower_chars, string_of, unicode_lower};

verus! {

/// The industry reads like oil, refining, gas or energy.
pub open spec fn oilish(ind: Seq<char>) -> bool {
    contains_seq(ind, "oil"@) || contains_seq(ind, "refin"@) || contains_seq(ind, "gas"@)
        || contains_seq(ind, "energy"@)
}

/// The business description reads like a conglomerate.
pub open spec fn conglomerate(sum: Seq<char>) -> bool {
    contains_seq(sum, "telecom"@) || contains_seq(sum, "retail"@) || contains_seq(sum, "digital"@)
        || contains_seq(sum, "jio"@) || contains_seq(sum, "conglomerate"@) || contains_seq(
        sum,
        "diversif"@,
    )
}

/// `low` for an energy conglomerate, else `medium`.
pub open spec fn comparability_of(ind: Seq<char>, sum: Seq<char>) -> Seq<char> {
    if oilish(ind) && conglomerate(sum) {
        "low"@
    } else {
        "medium"@
    }
}

/// The characters of an optional text, empty when missing.
pub fn opt_str_chars(o: Option<&str>) -> (r: Vec<char>)
    ensures
        r@ == opt_str_text(o),
{
    match o {
        Some(s) => chars_of(s),
        None => Vec::new(),
    }
}

/// Peer comparability: `low` for an energy conglomerate (mixed segments), else `medium`.
pub fn peer_comparability(industry: Option<&str>, summary: Option<&str>) -> (r: String)
    ensures
        r@ == comparability_of(
            unicode_lower(opt_str_text(industry)),
            unicode_lower(opt_str_text(summary)),
        ),
{
    let ind = lower_chars(opt_str_chars(industry).as_slice());
    let sum = lower_chars(opt_str_chars(summary).as_slice());
    let ind = ind.as_slice();
    let sum = sum.as_slice();
    let oil = contains_str(ind, "oil") || contains_str(ind, "refin") || contains_str(ind, "gas")
        || contains_str(ind, "energy");
    let cong = contains_str(sum, "telecom") || contains_str(sum, "retail") || contains_str(
        sum,
        "digital",
    ) || contains_str(sum, "jio") || contains_str(sum, "conglomerate") || contains_str(
        sum,
        "diversif",
    );
    if oil && cong {
        string_of("low")
    } else {
        string_of("medium")
    }
}

} // verus!
