//! Confidence grades and fixed sections of the fundamental analysis.

use vstd::prelude::*;

use crate::financial_company::NA_FILING;
use crate::models::FundamentalSection;
use crate::text::{string_of, string_views};

verus! {

/// Confidence from the number of annual income statements available.
pub open spec fn statement_confidence(inc_len: nat) -> Seq<char> {
    if inc_len >= 3 {
        "High"@
    } else if inc_len >= 1 {
        "Medium"@
    } else {
        "Low"@
    }
}

/// Confidence from the number of annual income statements available.
pub fn fundamental_confidence(inc_len: usize) -> (r: String)
    ensures
        r@ == statement_confidence(inc_len as nat),
{
    if inc_len >= 3 {
        string_of("High")
    } else if inc_len >= 1 {
        string_of("Medium")
    } else {
        string_of("Low")
    }
}

/// Confidence from the share of lender metrics present: High from 75%, Medium from 40%.
pub open spec fn coverage_confidence(present: nat, total: nat) -> Seq<char> {
    if total == 0 || present == 0 {
        "Low"@
    } else if 4 * present >= 3 * total {
        "High"@
    } else if 5 * present >= 2 * total {
        "Medium"@
    } else {
        "Low"@
    }
}

/// Confidence from the share of lender metrics present: High from 75%, Medium from 40%.
pub fn lender_section_confidence(present: usize, total: usize) -> (r: String)
    ensures
        r@ == coverage_confidence(present as nat, total as nat),
{
    if total == 0 || present == 0 {
        return string_of("Low");
    }
    let p = present as u128;
    let t = total as u128;
    if 4 * p >= 3 * t {
        string_of("High")
    } else if 5 * p >= 2 * t {
        string_of("Medium")
    } else {
        string_of("Low")
    }
}

/// A labelled line whose value is the reason it is not available.
pub fn na_line(label: &str, why: &str) -> (r: (String, String))
    ensures
        r.0@ == label@,
        r.1@ == why@,
{
    (string_of(label), string_of(why))
}

/// The view of a section: title, interpretation, flags, confidence and labelled lines.
pub open spec fn section_view(s: FundamentalSection) -> (
    Seq<char>,
    Seq<char>,
    Seq<Seq<char>>,
    Seq<char>,
    Seq<(Seq<char>, Seq<char>)>,
) {
    (
        s.title@,
        s.interpretation@,
        string_views(s.flags@),
        s.confidence@,
        s.lines@.map_values(|l: (String, String)| (l.0@, l.1@)),
    )
}

/// The labels of the portfolio-mix lines; every value is a filing-only placeholder.
pub open spec fn portfolio_mix_labels() -> Seq<Seq<char>> {
    seq![
        "Retail loans %"@,
        "Corporate/wholesale %"@,
        "Unsecured retail %"@,
        "Mortgage %"@,
        "Credit cards / personal loans"@,
        "Sector concentration"@,
        "Cost-to-income"@,
        "Branch productivity"@,
        "Fee income share"@,
    ]
}

/// The interpretation of the bank portfolio-mix section.
pub open spec fn portfolio_mix_interpretation() -> Seq<char> {
    "Retail vs wholesale mix, unsecured share, cost-to-income and fee income are filing metrics. Yahoo typically does not provide them; missing values are N/A, not zeros."@
}

/// Bank portfolio mix and operating efficiency: nine filing-only metrics, graded by whether
/// the bank reports its NIM.
pub fn bank_portfolio_efficiency_section(nim_reported: bool) -> (r: FundamentalSection)
    ensures
        section_view(r) == (
            "Portfolio mix & operating efficiency"@,
            portfolio_mix_interpretation(),
            Seq::<Seq<char>>::empty(),
            coverage_confidence(if nim_reported { 1 } else { 0 }, 9),
            portfolio_mix_labels().map_values(|l: Seq<char>| (l, NA_FILING@)),
        ),
{
    let present: usize = if nim_reported { 1 } else { 0 };
    let conf = lender_section_confidence(present, 9);
    let lines = vec![
        na_line("Retail loans %", NA_FILING),
        na_line("Corporate/wholesale %", NA_FILING),
        na_line("Unsecured retail %", NA_FILING),
        na_line("Mortgage %", NA_FILING),
        na_line("Credit cards / personal loans", NA_FILING),
        na_line("Sector concentration", NA_FILING),
        na_line("Cost-to-income", NA_FILING),
        na_line("Branch productivity", NA_FILING),
        na_line("Fee income share", NA_FILING),
    ];
    let r = FundamentalSection {
        title: string_of("Portfolio mix & operating efficiency"),
        interpretation: string_of(
            "Retail vs wholesale mix, unsecured share, cost-to-income and fee income are filing metrics. Yahoo typically does not provide them; missing values are N/A, not zeros.",
        ),
        flags: Vec::new(),
        confidence: conf,
        lines,
    };
    assert(string_views(r.flags@) =~= Seq::<Seq<char>>::empty());
    assert(r.lines@.map_values(|l: (String, String)| (l.0@, l.1@)) =~= portfolio_mix_labels().map_values(
        |l: Seq<char>| (l, NA_FILING@),
    ));
    r
}

} // verus!
