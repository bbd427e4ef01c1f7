use stocker_core::data_coverage::{
    build_data_coverage, lender_fundamental_risk_unassessed, CoveragePresence, Percent,
};
use stocker_core::models::FinancialCompanyType;

fn nothing() -> CoveragePresence {
    CoveragePresence {
        pe_ratio: false,
        price_to_book: false,
        return_on_equity: false,
        return_on_assets: false,
        earnings_growth: false,
        fy_pat_yoy: false,
        pat_cagr_3y: false,
        fy_revenue_yoy: false,
        interest_income_yoy: false,
        nii_yoy: false,
        net_interest_income: false,
        canonical_advances: false,
        canonical_loan_book: false,
        canonical_loan_book_growth: false,
        gnpa: false,
        nnpa: false,
        provision_coverage: false,
        crar: false,
        tier1: false,
        nim: false,
        spread: false,
        yield_on_assets: false,
        cost_of_funds: false,
        loan_book: false,
        loan_book_growth: false,
        credit_growth: false,
        disbursement_growth: false,
    }
}

fn dims(c: &stocker_core::data_coverage::DataCoverage) -> Vec<(String, usize, usize)> {
    c.dimensions.iter().map(|d| (d.name.clone(), d.present, d.total)).collect()
}

#[test]
fn industrial_coverage_counts_valuation_and_growth() {
    let mut p = nothing();
    p.pe_ratio = true;
    p.price_to_book = true;
    p.return_on_equity = true;
    p.fy_pat_yoy = true;
    p.pat_cagr_3y = true;
    let c = build_data_coverage(FinancialCompanyType::Industrial, &p);
    assert_eq!(dims(&c), vec![("Valuation".to_string(), 3, 3), ("Growth".to_string(), 2, 4)]);
    // (100% + 50%) / 2 = 75% mean coverage.
    assert_eq!(c.confidence, "High");
    assert!(!c.recommendation_gated);
    assert!(c.gate_reason.is_none());
    assert_eq!((c.critical_present, c.critical_total), (1, 1));
    let empty = build_data_coverage(FinancialCompanyType::Industrial, &nothing());
    assert_eq!(empty.confidence, "Medium");
    assert!(!empty.recommendation_gated);
}

#[test]
fn lender_without_filing_metrics_is_gated() {
    let mut p = nothing();
    p.pe_ratio = true;
    p.price_to_book = true;
    let c = build_data_coverage(FinancialCompanyType::Bank, &p);
    assert_eq!(c.dimensions.len(), 7);
    assert!(c.recommendation_gated);
    assert_eq!((c.critical_present, c.critical_total), (0, 5));
    assert_eq!(c.confidence, "Low");
    assert_eq!(
        c.gate_reason.as_deref(),
        Some("Critical lender coverage 0% (need ≥60% across asset quality, capital, ROE/ROA, loan growth, NIM/spread). Yahoo lacks filing metrics — recommendation withheld.")
    );
    assert!(lender_fundamental_risk_unassessed(&c, FinancialCompanyType::Bank));
}

#[test]
fn two_critical_groups_are_forty_percent_and_still_gated() {
    let mut p = nothing();
    p.gnpa = true;
    p.crar = true;
    let c = build_data_coverage(FinancialCompanyType::Nbfc, &p);
    assert!(c.recommendation_gated);
    assert_eq!(c.critical_present, 2);
    assert!(c.gate_reason.unwrap().starts_with("Critical lender coverage 40% (need"));
}

#[test]
fn three_critical_groups_lift_the_gate() {
    let mut p = nothing();
    p.gnpa = true;
    p.crar = true;
    p.return_on_equity = true;
    let c = build_data_coverage(FinancialCompanyType::Bank, &p);
    assert!(!c.recommendation_gated);
    assert_eq!(c.critical_present, 3);
    assert!(c.gate_reason.is_none());
    // Mean coverage (1/3 + 0 + 1/3 + 1/2 + 0 + 0 + 1/2) / 7 ≈ 24% is below 40%.
    assert_eq!(c.confidence, "Low");
    assert!(!lender_fundamental_risk_unassessed(&c, FinancialCompanyType::Bank));
}

#[test]
fn bank_loan_book_counts_advances_not_nbfc_loan_book() {
    let mut p = nothing();
    p.canonical_loan_book = true;
    let bank = build_data_coverage(FinancialCompanyType::Bank, &p);
    assert_eq!(dims(&bank)[5], ("Loan book".to_string(), 0, 5));
    let nbfc = build_data_coverage(FinancialCompanyType::HousingFinance, &p);
    assert_eq!(dims(&nbfc)[5], ("Loan book".to_string(), 1, 5));
    p.canonical_advances = true;
    let bank = build_data_coverage(FinancialCompanyType::Bank, &p);
    assert_eq!(dims(&bank)[5], ("Loan book".to_string(), 1, 5));
}

#[test]
fn full_lender_coverage_is_high() {
    let p = CoveragePresence {
        pe_ratio: true,
        price_to_book: true,
        return_on_equity: true,
        return_on_assets: true,
        earnings_growth: true,
        fy_pat_yoy: true,
        pat_cagr_3y: true,
        fy_revenue_yoy: true,
        interest_income_yoy: true,
        nii_yoy: true,
        net_interest_income: true,
        canonical_advances: true,
        canonical_loan_book: true,
        canonical_loan_book_growth: true,
        gnpa: true,
        nnpa: true,
        provision_coverage: true,
        crar: true,
        tier1: true,
        nim: true,
        spread: true,
        yield_on_assets: true,
        cost_of_funds: true,
        loan_book: true,
        loan_book_growth: true,
        credit_growth: true,
        disbursement_growth: true,
    };
    let c = build_data_coverage(FinancialCompanyType::NbfcProjectFinance, &p);
    assert_eq!(c.confidence, "High");
    assert_eq!((c.critical_present, c.critical_total), (5, 5));
    assert!(dims(&c).iter().all(|(_, present, total)| present == total));
}

#[test]
fn missing_capital_group_leaves_risk_unassessed() {
    let mut p = nothing();
    p.gnpa = true;
    p.return_on_equity = true;
    p.nim = true;
    let c = build_data_coverage(FinancialCompanyType::Bank, &p);
    assert!(!c.recommendation_gated);
    assert!(lender_fundamental_risk_unassessed(&c, FinancialCompanyType::Bank));
    let ind = build_data_coverage(FinancialCompanyType::Industrial, &p);
    assert!(!lender_fundamental_risk_unassessed(&ind, FinancialCompanyType::Industrial));
}

#[test]
fn adding_figures_never_reinstates_the_gate() {
    let mut p = nothing();
    p.gnpa = true;
    p.crar = true;
    p.nim = true;
    assert!(!build_data_coverage(FinancialCompanyType::Bank, &p).recommendation_gated);
    p.pe_ratio = true;
    p.loan_book = true;
    p.return_on_assets = true;
    let more = build_data_coverage(FinancialCompanyType::Bank, &p);
    assert!(!more.recommendation_gated);
    assert_eq!(more.critical_present, 5);
}

fn pct(p: Percent) -> f64 {
    p.numer as f64 / p.denom as f64
}

#[test]
fn coverage_percentages_are_exact() {
    let mut p = nothing();
    p.pe_ratio = true;
    p.price_to_book = true;
    p.return_on_equity = true;
    p.fy_pat_yoy = true;
    p.pat_cagr_3y = true;
    let c = build_data_coverage(FinancialCompanyType::Industrial, &p);
    assert_eq!(c.overall_pct, Percent { numer: 1800, denom: 24 });
    assert_eq!(pct(c.overall_pct), 75.0);
    assert_eq!(pct(c.critical_pct), 100.0);
    assert_eq!(c.dimensions[0].coverage_pct, Percent { numer: 300, denom: 3 });
    assert_eq!(pct(c.dimensions[1].coverage_pct), 50.0);

    let mut q = nothing();
    q.pe_ratio = true;
    q.gnpa = true;
    q.crar = true;
    q.tier1 = true;
    let c = build_data_coverage(FinancialCompanyType::Bank, &q);
    // Valuation 1/3, asset quality 1/3, capital 2/2: (33.3 + 33.3 + 100) / 7 %.
    assert_eq!(c.overall_pct, Percent { numer: 100 * (10 + 10 + 30), denom: 210 });
    assert_eq!(c.critical_pct, Percent { numer: 200, denom: 5 });
    assert_eq!(pct(c.critical_pct), 40.0);
    assert!(c.recommendation_gated);
    let mean: f64 = c.dimensions.iter().map(|d| pct(d.coverage_pct)).sum::<f64>() / 7.0;
    assert!((mean - pct(c.overall_pct)).abs() < 1e-9);
}
