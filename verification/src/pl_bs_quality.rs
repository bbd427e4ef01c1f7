//! Findings of the P&L / balance-sheet quality review.

use vstd::prelude::*;

use crate::models::PlBsQualityLine;
use crate::text::string_of;

verus! {

/// Append one finding with its area and severity.
pub fn push_line(lines: &mut Vec<PlBsQualityLine>, area: &str, finding: String, severity: &str)
    ensures
        final(lines)@.len() == old(lines)@.len() + 1,
        final(lines)@.take(old(lines)@.len() as int) == old(lines)@,
        final(lines)@.last().area@ == area@,
        final(lines)@.last().finding == finding,
        final(lines)@.last().severity@ == severity@,
{
    lines.push(PlBsQualityLine { area: string_of(area), finding, severity: string_of(severity) });
    assert(lines@.take(lines@.len() - 1) =~= old(lines)@);
}

} // verus!
