//! How much of the data a research view needs is on hand, and when a lender's
//! recommendation is withheld for want of it.

use vstd::prelude::*;

use crate::financial_company::lender_type;
use crate::models::FinancialCompanyType;
use crate::text::{
    chars_of, decimal, decimal_string, eq_ignore_ascii_case, eq_ignore_ascii_case_exec, push_str,
    string_of,
};

verus! {


/// Which figures are on hand for the coverage count. Each flag says the figure was
/// reported as a finite number; for P/E and P/B, also that it is not zero.
#[derive(Debug, Clone, Copy, PartialEq, Eq, Structural)]
pub struct CoveragePresence {
    pub pe_ratio: bool,
    pub price_to_book: bool,
    pub return_on_equity: bool,
    pub return_on_assets: bool,
    pub earnings_growth: bool,
    pub fy_pat_yoy: bool,
    pub pat_cagr_3y: bool,
    pub fy_revenue_yoy: bool,
    pub interest_income_yoy: bool,
    pub nii_yoy: bool,
    pub net_interest_income: bool,
    pub canonical_advances: bool,
    pub canonical_loan_book: bool,
    pub canonical_loan_book_growth: bool,
    pub gnpa: bool,
    pub nnpa: bool,
    pub provision_coverage: bool,
    pub crar: bool,
    pub tier1: bool,
    pub nim: bool,
    pub spread: bool,
    pub yield_on_assets: bool,
    pub cost_of_funds: bool,
    pub loan_book: bool,
    pub loan_book_growth: bool,
    pub credit_growth: bool,
    pub disbursement_growth: bool,
}

/// A percentage held exactly, as the fraction `numer / denom` (`denom` is not zero).
#[derive(Debug, Clone, Copy, PartialEq, Eq, Structural)]
pub struct Percent {
    pub numer: u64,
    pub denom: u64,
}

/// One group of figures: how many of its `total` figures are on hand, and that share
/// in percent.
#[derive(Debug)]
pub struct CoverageDimension {
    pub name: String,
    pub coverage_pct: Percent,
    pub present: usize,
    pub total: usize,
}

/// How much of the data a research view needs is on hand, and whether a lender's
/// recommendation is withheld for want of it. `overall_pct` is the mean of the
/// dimensions' coverage, `critical_pct` is `critical_present / critical_total × 100`.
#[derive(Debug)]
pub struct DataCoverage {
    pub overall_pct: Percent,
    pub critical_pct: Percent,
    pub confidence: String,
    pub dimensions: Vec<CoverageDimension>,
    pub recommendation_gated: bool,
    pub gate_reason: Option<String>,
    pub critical_present: usize,
    pub critical_total: usize,
}

/// 1 for a figure on hand, else 0.
pub open spec fn one(b: bool) -> nat {
    if b {
        1
    } else {
        0
    }
}

/// Valuation figures on hand: P/E, P/B, ROE (of 3).
#[verifier::opaque]
pub open spec fn valuation_present(p: CoveragePresence) -> nat {
    one(p.pe_ratio) + one(p.price_to_book) + one(p.return_on_equity)
}

/// Growth figures on hand for a non-lender: FY PAT YoY, 3Y PAT CAGR, earnings growth,
/// FY revenue YoY (of 4).
#[verifier::opaque]
pub open spec fn industrial_growth_present(p: CoveragePresence) -> nat {
    one(p.fy_pat_yoy) + one(p.pat_cagr_3y) + one(p.earnings_growth) + one(p.fy_revenue_yoy)
}

/// Growth figures on hand for a lender: FY PAT YoY, 3Y PAT CAGR, interest income YoY,
/// NII YoY, loan-book growth (of 5).
#[verifier::opaque]
pub open spec fn lender_growth_present(p: CoveragePresence) -> nat {
    one(p.fy_pat_yoy) + one(p.pat_cagr_3y) + one(p.interest_income_yoy) + one(p.nii_yoy) + one(
        p.canonical_loan_book_growth,
    )
}

/// Asset-quality figures on hand: GNPA, NNPA, provision coverage (of 3).
#[verifier::opaque]
pub open spec fn asset_quality_present(p: CoveragePresence) -> nat {
    one(p.gnpa) + one(p.nnpa) + one(p.provision_coverage)
}

/// Capital figures on hand: CRAR, Tier 1 (of 2).
#[verifier::opaque]
pub open spec fn capital_present(p: CoveragePresence) -> nat {
    one(p.crar) + one(p.tier1)
}

/// NIM/spread figures on hand: NIM, spread, yield on assets, cost of funds, NII (of 5).
#[verifier::opaque]
pub open spec fn nim_present(p: CoveragePresence) -> nat {
    one(p.nim) + one(p.spread) + one(p.yield_on_assets) + one(p.cost_of_funds) + one(
        p.net_interest_income,
    )
}

/// Loan-book figures on hand (of 5). Banks count canonical advances; the NBFC family
/// counts its canonical loan book and its growth.
#[verifier::opaque]
pub open spec fn loan_present(t: FinancialCompanyType, p: CoveragePresence) -> nat {
    if t == FinancialCompanyType::Bank {
        one(p.canonical_advances) + one(p.loan_book) + one(p.loan_book_growth) + one(
            p.credit_growth,
        ) + one(p.disbursement_growth)
    } else {
        one(p.canonical_loan_book) + one(p.canonical_loan_book_growth) + one(p.loan_book) + one(
            p.loan_book_growth,
        ) + one(p.disbursement_growth)
    }
}

/// Return figures on hand: ROE, ROA (of 2).
#[verifier::opaque]
pub open spec fn roe_roa_present(p: CoveragePresence) -> nat {
    one(p.return_on_equity) + one(p.return_on_assets)
}

/// The dimensions as (name, present, total): valuation and growth for non-lenders;
/// valuation, growth, asset quality, capital, NIM/spread, loan book and ROE/ROA for lenders.
pub open spec fn coverage_dimensions(t: FinancialCompanyType, p: CoveragePresence) -> Seq<
    (Seq<char>, nat, nat),
> {
    if !lender_type(t) {
        seq![("Valuation"@, valuation_present(p), 3), ("Growth"@, industrial_growth_present(p), 4)]
    } else {
        seq![
            ("Valuation"@, valuation_present(p), 3),
            ("Growth"@, lender_growth_present(p), 5),
            ("Asset Quality"@, asset_quality_present(p), 3),
            ("Capital Adequacy"@, capital_present(p), 2),
            ("NIM/Spread"@, nim_present(p), 5),
            ("Loan book"@, loan_present(t, p), 5),
            ("ROE/ROA"@, roe_roa_present(p), 2),
        ]
    }
}

/// Critical lender groups with at least one figure on hand, out of five: asset quality,
/// capital, ROE/ROA, loan book and NIM/spread.
pub open spec fn critical_groups_present(t: FinancialCompanyType, p: CoveragePresence) -> nat {
    one(asset_quality_present(p) > 0) + one(capital_present(p) > 0) + one(roe_roa_present(p) > 0)
        + one(loan_present(t, p) > 0) + one(nim_present(p) > 0)
}

/// A lender's recommendation is withheld when its critical coverage is below 60%.
pub open spec fn coverage_gated(t: FinancialCompanyType, p: CoveragePresence) -> bool {
    lender_type(t) && critical_groups_present(t, p) * 100 < 60 * 5
}

/// The dimensions' coverage summed in a common unit: thirtieths for the seven lender
/// dimensions, twelfths for the two others. The mean coverage in percent is
/// `100 × sum / 210` for lenders and `100 × sum / 24` for the rest.
pub open spec fn coverage_sum(t: FinancialCompanyType, p: CoveragePresence) -> nat {
    if lender_type(t) {
        10 * valuation_present(p) + 6 * lender_growth_present(p) + 10 * asset_quality_present(p)
            + 15 * capital_present(p) + 6 * nim_present(p) + 6 * loan_present(t, p) + 15
            * roe_roa_present(p)
    } else {
        4 * valuation_present(p) + 3 * industrial_growth_present(p)
    }
}

/// The mean coverage of the dimensions is at least `pct` percent.
pub open spec fn overall_at_least(t: FinancialCompanyType, p: CoveragePresence, pct: int) -> bool {
    if lender_type(t) {
        100 * coverage_sum(t, p) >= pct * 210
    } else {
        100 * coverage_sum(t, p) >= pct * 24
    }
}

/// High when (ungated and) mean coverage reaches 70%; for lenders Medium when mean
/// and critical coverage both reach 40%, else Low; for the rest Medium otherwise.
pub open spec fn coverage_confidence(t: FinancialCompanyType, p: CoveragePresence) -> Seq<char> {
    if !lender_type(t) {
        if overall_at_least(t, p, 70) {
            "High"@
        } else {
            "Medium"@
        }
    } else if !coverage_gated(t, p) && overall_at_least(t, p, 70) {
        "High"@
    } else if overall_at_least(t, p, 40) && critical_groups_present(t, p) * 100 >= 40 * 5 {
        "Medium"@
    } else {
        "Low"@
    }
}

/// Why a lender's recommendation is withheld, with its critical coverage in percent.
pub open spec fn gate_reason_text(critical: nat) -> Seq<char> {
    "Critical lender coverage "@ + decimal(critical * 20)
        + "% (need ≥60% across asset quality, capital, ROE/ROA, loan growth, NIM/spread). Yahoo lacks filing metrics — recommendation withheld."@
}

/// The dimensions of a coverage as (name, present, total).
pub open spec fn dimensions_view(d: Seq<CoverageDimension>) -> Seq<(Seq<char>, nat, nat)> {
    d.map_values(|x: CoverageDimension| (x.name@, x.present as nat, x.total as nat))
}

/// A dimension's percentage is `100 × present / total`.
pub open spec fn dimension_pct_exact(d: CoverageDimension) -> bool {
    d.coverage_pct.numer == 100 * d.present && d.coverage_pct.denom == d.total
}

/// The mean coverage in percent as an exact fraction: `100 × sum / 210` for lenders,
/// `100 × sum / 24` for the rest (see `coverage_sum`).
pub open spec fn overall_percent(t: FinancialCompanyType, p: CoveragePresence) -> Percent {
    Percent {
        numer: (100 * coverage_sum(t, p)) as u64,
        denom: if lender_type(t) {
            210
        } else {
            24
        },
    }
}

/// The critical coverage in percent: `100 × critical groups present / 5` for lenders;
/// 100% for the rest, which have no critical group to miss.
pub open spec fn critical_percent(t: FinancialCompanyType, p: CoveragePresence) -> Percent {
    if lender_type(t) {
        Percent { numer: (100 * critical_groups_present(t, p)) as u64, denom: 5 }
    } else {
        Percent { numer: 100, denom: 1 }
    }
}

fn one_exec(b: bool) -> (r: usize)
    ensures
        r == one(b),
        r <= 1,
{
    if b {
        1
    } else {
        0
    }
}

fn dimension(name: &str, present: usize, total: usize) -> (r: CoverageDimension)
    requires
        present <= total <= 5,
        total > 0,
    ensures
        r.name@ == name@,
        r.present == present,
        r.total == total,
        dimension_pct_exact(r),
{
    let numer: u64 = 100 * present as u64;
    CoverageDimension {
        name: string_of(name),
        coverage_pct: Percent { numer, denom: total as u64 },
        present,
        total,
    }
}

fn gate_reason_for(critical: usize) -> (r: String)
    requires
        critical <= 5,
    ensures
        r@ == gate_reason_text(critical as nat),
{
    let mut g = string_of("Critical lender coverage ");
    let pct = decimal_string((critical * 20) as u64);
    push_str(&mut g, pct.as_str());
    push_str(
        &mut g,
        "% (need ≥60% across asset quality, capital, ROE/ROA, loan growth, NIM/spread). Yahoo lacks filing metrics — recommendation withheld.",
    );
    g
}

fn valuation_count(p: &CoveragePresence) -> (r: usize)
    ensures
        r == valuation_present(*p),
        r <= 3,
{
    proof {
        reveal(valuation_present);
    }
    one_exec(p.pe_ratio) + one_exec(p.price_to_book) + one_exec(p.return_on_equity)
}

fn industrial_growth_count(p: &CoveragePresence) -> (r: usize)
    ensures
        r == industrial_growth_present(*p),
        r <= 4,
{
    proof {
        reveal(industrial_growth_present);
    }
    one_exec(p.fy_pat_yoy) + one_exec(p.pat_cagr_3y) + one_exec(p.earnings_growth) + one_exec(
        p.fy_revenue_yoy,
    )
}

fn lender_growth_count(p: &CoveragePresence) -> (r: usize)
    ensures
        r == lender_growth_present(*p),
        r <= 5,
{
    proof {
        reveal(lender_growth_present);
    }
    one_exec(p.fy_pat_yoy) + one_exec(p.pat_cagr_3y) + one_exec(p.interest_income_yoy) + one_exec(
        p.nii_yoy,
    ) + one_exec(p.canonical_loan_book_growth)
}

fn asset_quality_count(p: &CoveragePresence) -> (r: usize)
    ensures
        r == asset_quality_present(*p),
        r <= 3,
{
    proof {
        reveal(asset_quality_present);
    }
    one_exec(p.gnpa) + one_exec(p.nnpa) + one_exec(p.provision_coverage)
}

fn capital_count(p: &CoveragePresence) -> (r: usize)
    ensures
        r == capital_present(*p),
        r <= 2,
{
    proof {
        reveal(capital_present);
    }
    one_exec(p.crar) + one_exec(p.tier1)
}

fn nim_count(p: &CoveragePresence) -> (r: usize)
    ensures
        r == nim_present(*p),
        r <= 5,
{
    proof {
        reveal(nim_present);
    }
    one_exec(p.nim) + one_exec(p.spread) + one_exec(p.yield_on_assets) + one_exec(p.cost_of_funds)
        + one_exec(p.net_interest_income)
}

fn loan_count(t: FinancialCompanyType, p: &CoveragePresence) -> (r: usize)
    ensures
        r == loan_present(t, *p),
        r <= 5,
{
    proof {
        reveal(loan_present);
    }
    if t.is_bank() {
        one_exec(p.canonical_advances) + one_exec(p.loan_book) + one_exec(p.loan_book_growth)
            + one_exec(p.credit_growth) + one_exec(p.disbursement_growth)
    } else {
        one_exec(p.canonical_loan_book) + one_exec(p.canonical_loan_book_growth) + one_exec(
            p.loan_book,
        ) + one_exec(p.loan_book_growth) + one_exec(p.disbursement_growth)
    }
}

fn roe_roa_count(p: &CoveragePresence) -> (r: usize)
    ensures
        r == roe_roa_present(*p),
        r <= 2,
{
    proof {
        reveal(roe_roa_present);
    }
    one_exec(p.return_on_equity) + one_exec(p.return_on_assets)
}

fn industrial_coverage(t: FinancialCompanyType, p: &CoveragePresence) -> (r: DataCoverage)
    requires
        !lender_type(t),
    ensures
        dimensions_view(r.dimensions@) == coverage_dimensions(t, *p),
        r.confidence@ == coverage_confidence(t, *p),
        r.recommendation_gated == coverage_gated(t, *p),
        r.gate_reason is None,
        r.critical_present == 1 && r.critical_total == 1,
        forall|i: int|
            0 <= i < r.dimensions@.len() ==> dimension_pct_exact(#[trigger] r.dimensions@[i]),
        r.overall_pct == overall_percent(t, *p),
        r.critical_pct == critical_percent(t, *p),
{
    let valuation = valuation_count(p);
    let growth = industrial_growth_count(p);
    let sum = 4 * valuation + 3 * growth;
    let dims = vec![dimension("Valuation", valuation, 3), dimension("Growth", growth, 4)];
    proof {
        assert(dimensions_view(dims@) =~~= coverage_dimensions(t, *p));
    }
    let confidence = if 100 * sum >= 70 * 24 {
        string_of("High")
    } else {
        string_of("Medium")
    };
    DataCoverage {
        overall_pct: Percent { numer: 100 * sum as u64, denom: 24 },
        critical_pct: Percent { numer: 100, denom: 1 },
        confidence,
        dimensions: dims,
        recommendation_gated: false,
        gate_reason: None,
        critical_present: 1,
        critical_total: 1,
    }
}

fn critical_count(
    t: FinancialCompanyType,
    p: &CoveragePresence,
    asset_quality: usize,
    capital: usize,
    roe_roa: usize,
    loan: usize,
    nim: usize,
) -> (r: usize)
    requires
        asset_quality == asset_quality_present(*p),
        capital == capital_present(*p),
        roe_roa == roe_roa_present(*p),
        loan == loan_present(t, *p),
        nim == nim_present(*p),
    ensures
        r == critical_groups_present(t, *p),
        r <= 5,
{
    one_exec(asset_quality > 0) + one_exec(capital > 0) + one_exec(roe_roa > 0) + one_exec(loan > 0)
        + one_exec(nim > 0)
}

fn lender_confidence(t: FinancialCompanyType, p: &CoveragePresence, sum: usize, critical: usize) -> (r:
    String)
    requires
        lender_type(t),
        sum == coverage_sum(t, *p),
        critical == critical_groups_present(t, *p),
        sum <= 1000,
        critical <= 5,
    ensures
        r@ == coverage_confidence(t, *p),
{
    let gated = critical * 100 < 60 * 5;
    if !gated && 100 * sum >= 70 * 210 {
        string_of("High")
    } else if 100 * sum >= 40 * 210 && critical * 100 >= 40 * 5 {
        string_of("Medium")
    } else {
        string_of("Low")
    }
}

fn lender_coverage(t: FinancialCompanyType, p: &CoveragePresence) -> (r: DataCoverage)
    requires
        lender_type(t),
    ensures
        dimensions_view(r.dimensions@) == coverage_dimensions(t, *p),
        r.confidence@ == coverage_confidence(t, *p),
        r.recommendation_gated == coverage_gated(t, *p),
        r.gate_reason matches Some(g) ==> g@ == gate_reason_text(critical_groups_present(t, *p)),
        r.gate_reason is Some <==> coverage_gated(t, *p),
        r.critical_present == critical_groups_present(t, *p) && r.critical_total == 5,
        forall|i: int|
            0 <= i < r.dimensions@.len() ==> dimension_pct_exact(#[trigger] r.dimensions@[i]),
        r.overall_pct == overall_percent(t, *p),
        r.critical_pct == critical_percent(t, *p),
{
    let valuation = valuation_count(p);
    let growth = lender_growth_count(p);
    let asset_quality = asset_quality_count(p);
    let capital = capital_count(p);
    let nim = nim_count(p);
    let loan = loan_count(t, p);
    let roe_roa = roe_roa_count(p);
    let critical = critical_count(t, p, asset_quality, capital, roe_roa, loan, nim);
    let sum = 10 * valuation + 6 * growth + 10 * asset_quality + 15 * capital + 6 * nim + 6 * loan
        + 15 * roe_roa;
    let gated = critical * 100 < 60 * 5;
    let confidence = lender_confidence(t, p, sum, critical);
    let gate_reason = if gated {
        Some(gate_reason_for(critical))
    } else {
        None
    };
    let dims = vec![
        dimension("Valuation", valuation, 3),
        dimension("Growth", growth, 5),
        dimension("Asset Quality", asset_quality, 3),
        dimension("Capital Adequacy", capital, 2),
        dimension("NIM/Spread", nim, 5),
        dimension("Loan book", loan, 5),
        dimension("ROE/ROA", roe_roa, 2),
    ];
    proof {
        assert(dimensions_view(dims@) =~~= coverage_dimensions(t, *p));
    }
    DataCoverage {
        overall_pct: Percent { numer: 100 * sum as u64, denom: 210 },
        critical_pct: Percent { numer: 100 * critical as u64, denom: 5 },
        confidence,
        dimensions: dims,
        recommendation_gated: gated,
        gate_reason,
        critical_present: critical,
        critical_total: 5,
    }
}

/// Coverage of the figures a research view needs. For lenders, the critical groups
/// (asset quality, capital, ROE/ROA, loan book, NIM/spread) gate the recommendation:
/// it is withheld when fewer than 60% of them have any figure.
pub fn build_data_coverage(t: FinancialCompanyType, p: &CoveragePresence) -> (r: DataCoverage)
    ensures
        dimensions_view(r.dimensions@) == coverage_dimensions(t, *p),
        r.confidence@ == coverage_confidence(t, *p),
        r.recommendation_gated == coverage_gated(t, *p),
        r.gate_reason matches Some(g) ==> g@ == gate_reason_text(critical_groups_present(t, *p)),
        r.gate_reason is Some <==> coverage_gated(t, *p),
        lender_type(t) ==> r.critical_present == critical_groups_present(t, *p)
            && r.critical_total == 5,
        !lender_type(t) ==> r.critical_present == 1 && r.critical_total == 1,
        forall|i: int|
            0 <= i < r.dimensions@.len() ==> dimension_pct_exact(#[trigger] r.dimensions@[i]),
        r.overall_pct == overall_percent(t, *p),
        r.critical_pct == critical_percent(t, *p),
{
    if t.is_lender() {
        lender_coverage(t, p)
    } else {
        industrial_coverage(t, p)
    }
}

/// The first dimension at or after `from` whose name equals `name`, ignoring ASCII case.
pub open spec fn named_dimension(d: Seq<(Seq<char>, nat, nat)>, name: Seq<char>, from: int) -> Option<
    int,
>
    decreases d.len() - from,
{
    if from < 0 || from >= d.len() {
        None
    } else if eq_ignore_ascii_case(d[from].0, name) {
        Some(from)
    } else {
        named_dimension(d, name, from + 1)
    }
}

/// The named dimension is missing or has no figure on hand (its coverage is 0%).
pub open spec fn dimension_empty(d: Seq<(Seq<char>, nat, nat)>, name: Seq<char>) -> bool {
    match named_dimension(d, name, 0) {
        None => true,
        Some(k) => d[k].1 == 0 || d[k].2 == 0,
    }
}

fn dimension_is_empty(dims: &Vec<CoverageDimension>, name: &str) -> (r: bool)
    ensures
        r == dimension_empty(dimensions_view(dims@), name@),
{
    let ghost view = dimensions_view(dims@);
    let target = chars_of(name);
    let mut i: usize = 0;
    while i < dims.len()
        invariant
            0 <= i <= dims.len(),
            view == dimensions_view(dims@),
            target@ == name@,
            named_dimension(view, name@, 0) == named_dimension(view, name@, i as int),
        decreases dims.len() - i,
    {
        let nm = chars_of(dims[i].name.as_str());
        assert(view[i as int].0 == dims@[i as int].name@);
        if eq_ignore_ascii_case_exec(nm.as_slice(), target.as_slice()) {
            return dims[i].present == 0 || dims[i].total == 0;
        }
        i = i + 1;
    }
    true
}

/// A lender whose asset-quality or capital-adequacy group holds no figure: its
/// fundamental risk is unassessed, and market beta must not stand in for it.
pub fn lender_fundamental_risk_unassessed(coverage: &DataCoverage, t: FinancialCompanyType) -> (r:
    bool)
    ensures
        r == (lender_type(t) && (dimension_empty(
            dimensions_view(coverage.dimensions@),
            "Asset Quality"@,
        ) || dimension_empty(dimensions_view(coverage.dimensions@), "Capital Adequacy"@))),
{
    if !t.is_lender() {
        return false;
    }
    dimension_is_empty(&coverage.dimensions, "Asset Quality") || dimension_is_empty(
        &coverage.dimensions,
        "Capital Adequacy",
    )
}

} // verus!
