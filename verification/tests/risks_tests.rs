use stocker_core::analysis::{categorize_risks, tone_from_summary, AuditFindings, RiskSignals};
use stocker_core::models::FinancialCompanyType;

fn quiet() -> RiskSignals {
    RiskSignals {
        thin_margin: false,
        high_debt: false,
        cash_covers_profit: true,
        fcf_non_positive: false,
        pledged: false,
        pe_above_35: false,
        pe_above_20: false,
    }
}

#[test]
fn summary_tone_scores() {
    assert_eq!(tone_from_summary(None), (50, "Neutral".to_string()));
    assert_eq!(tone_from_summary(Some("")), (50, "Neutral".to_string()));
    let pos = tone_from_summary(Some("Leading, robust growth with strong customer focus."));
    assert_eq!(pos, (65, "Cautiously positive".to_string()));
    let neg = tone_from_summary(Some("Debt, litigation risk and weak, volatile demand; loss-making."));
    assert_eq!(neg, (32, "Cautiously negative".to_string()));
    assert_eq!(tone_from_summary(Some("GROWTH amid RISK")).0, 50);
}

#[test]
fn industrial_risks_from_signals() {
    let r = categorize_risks(&quiet(), None, FinancialCompanyType::Industrial);
    assert_eq!(r.business_risks.len(), 3);
    assert_eq!(r.financial_risks.len(), 1);
    assert_eq!(r.valuation_risks[1].risk, "Multiple derating");
    assert_eq!(r.regulatory_risks.len(), 4);
    let mut s = quiet();
    s.thin_margin = true;
    s.high_debt = true;
    s.fcf_non_positive = true;
    s.cash_covers_profit = false;
    s.pledged = true;
    s.pe_above_35 = true;
    let r = categorize_risks(&s, None, FinancialCompanyType::Industrial);
    assert_eq!(r.business_risks[3].risk, "Weak entry barriers");
    let fin: Vec<&str> = r.financial_risks.iter().map(|x| x.risk.as_str()).collect();
    assert_eq!(fin, vec!["Working capital stress", "High debt", "Poor cash flow"]);
    assert_eq!(r.management_risks[2].note, "Promoter pledge reported; monitor trend as red flag.");
    assert_eq!(r.valuation_risks[1].risk, "Overvaluation");
}

#[test]
fn audit_flags_become_financial_risks() {
    let long = "Receivables grew much faster than revenue over the last three reported years".to_string();
    let audit = AuditFindings {
        checklist_metrics: vec!["Debt / equity".to_string()],
        red_flags: vec![long.clone(), "b".into(), "c".into(), "d".into(), "e".into()],
        failed_earnings_quality: Some("35".to_string()),
    };
    let mut s = quiet();
    s.high_debt = true;
    let r = categorize_risks(&s, Some(&audit), FinancialCompanyType::Industrial);
    assert_eq!(r.financial_risks.len(), 7);
    assert_eq!(r.financial_risks[1].risk, "High debt");
    assert_eq!(r.financial_risks[2].risk, long.chars().take(60).collect::<String>());
    assert_eq!(r.financial_risks[2].note, long);
    assert_eq!(r.financial_risks[5].risk, "d");
    assert_eq!(
        r.financial_risks[6].note,
        "Earnings quality score 35/100 — CFO/PAT and working capital checks weak."
    );
    let bank_audit = AuditFindings {
        checklist_metrics: vec!["GNPA %".to_string()],
        red_flags: vec![],
        failed_earnings_quality: None,
    };
    let r = categorize_risks(&s, Some(&bank_audit), FinancialCompanyType::Industrial);
    assert_eq!(r.financial_risks.len(), 1);
}

#[test]
fn lenders_get_lender_buckets() {
    let mut s = quiet();
    s.pe_above_20 = true;
    s.pe_above_35 = true;
    let r = categorize_risks(&s, None, FinancialCompanyType::Bank);
    assert_eq!(r.valuation_risks[1].risk, "Rich P/E for a bank");
    let r = categorize_risks(&s, None, FinancialCompanyType::HousingFinance);
    assert_eq!(r.business_risks[0].risk, "Sector concentration");
    assert_eq!(r.valuation_risks[1].risk, "Rich P/E for a lender");
}
