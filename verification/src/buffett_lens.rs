//! Business-tier labels of the Berkshire-style lens.

use vstd::prelude::*;

verus! {

/// Business tier from moat, management trust and earnings durability.
#[derive(Debug, Clone, Copy, PartialEq, Eq, Structural)]
pub enum BusinessTierLabel {
    Wonderful,
    Good,
    Mediocre,
    Weak,
}

/// Display name of each tier.
pub open spec fn tier_name(label: BusinessTierLabel) -> Seq<char> {
    match label {
        BusinessTierLabel::Wonderful => "Wonderful"@,
        BusinessTierLabel::Good => "Good"@,
        BusinessTierLabel::Mediocre => "Mediocre"@,
        BusinessTierLabel::Weak => "Weak"@,
    }
}

/// Display name of a business tier.
pub fn tier_label_str(label: BusinessTierLabel) -> (r: &'static str)
    ensures
        r@ == tier_name(label),
{
    match label {
        BusinessTierLabel::Wonderful => "Wonderful",
        BusinessTierLabel::Good => "Good",
        BusinessTierLabel::Mediocre => "Mediocre",
        BusinessTierLabel::Weak => "Weak",
    }
}

} // verus!
