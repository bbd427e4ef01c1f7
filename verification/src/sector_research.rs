//! Names used in the sector research profile.

use vstd::prelude::*;

use crate::models::CompetitionStructure;

verus! {

/// Display name of each competition structure.
pub open spec fn competition_name(s: CompetitionStructure) -> Seq<char> {
    match s {
        CompetitionStructure::Fragmented => "Fragmented"@,
        CompetitionStructure::ModeratelyConcentrated => "Moderately concentrated"@,
        CompetitionStructure::Oligopolistic => "Oligopolistic"@,
    }
}

/// Display name of a competition structure.
pub fn competition_label(s: CompetitionStructure) -> (r: &'static str)
    ensures
        r@ == competition_name(s),
{
    match s {
        CompetitionStructure::Fragmented => "Fragmented",
        CompetitionStructure::ModeratelyConcentrated => "Moderately concentrated",
        CompetitionStructure::Oligopolistic => "Oligopolistic",
    }
}

} // verus!
