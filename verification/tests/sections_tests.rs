use stocker_core::analysis::{
    advantage_and_entry_for, build_monitorables, business_model_for, company_overview_line,
    growth_triggers_for, lender_risks, scenario_analysis_for, MonitorableSignals,
};
use stocker_core::models::RiskCategory;
use stocker_core::models::FinancialCompanyType;
use stocker_core::provider_search::sector_outlook_line;
use stocker_core::research_summary::short_business_summary;

#[test]
fn scenarios_by_company_type() {
    let bank = scenario_analysis_for(FinancialCompanyType::Bank);
    assert!(bank.base_case.starts_with("Credit and deposit growth"));
    let pf = scenario_analysis_for(FinancialCompanyType::NbfcProjectFinance);
    assert_eq!(pf.downside_case, "Discom stress, NIM compression, credit-cost spike, or ALM/funding shock.");
    let ind = scenario_analysis_for(FinancialCompanyType::Insurance);
    assert_eq!(
        ind.capital_impairment_guardrail,
        "If downside case suggests permanent capital impairment, avoid or reduce position size."
    );
}

#[test]
fn growth_triggers_by_company_type() {
    assert_eq!(growth_triggers_for(FinancialCompanyType::Bank).len(), 6);
    let hfc = growth_triggers_for(FinancialCompanyType::HousingFinance);
    assert_eq!(hfc.len(), 5);
    assert_eq!(hfc[3], "CRAR / Tier-I vs regulatory floor.");
    let ind = growth_triggers_for(FinancialCompanyType::Industrial);
    assert_eq!(ind[0], "Investigate new product/service ramps in filings (not confirmed from Yahoo).");
}

#[test]
fn business_model_and_strategy_texts() {
    assert!(business_model_for(FinancialCompanyType::Bank).starts_with("Universal commercial bank"));
    assert!(business_model_for(FinancialCompanyType::NbfcProjectFinance).starts_with("Project-finance / credit book"));
    assert!(business_model_for(FinancialCompanyType::Nbfc).starts_with("NBFC credit book"));
    assert_eq!(
        business_model_for(FinancialCompanyType::Amc),
        "Review revenue drivers, customer mix, pricing power, and reinvestment discipline."
    );
    let (adv, entry) = advantage_and_entry_for(FinancialCompanyType::Nbfc);
    assert!(adv.starts_with("Assess cost of funds"));
    assert_eq!(entry, "Do not rank on a gated Yahoo-only score. Prefer filings for GNPA, CRAR, and NIM before size.");
    let (adv, _) = advantage_and_entry_for(FinancialCompanyType::Industrial);
    assert!(adv.starts_with("Assess moat"));
}

#[test]
fn overview_line_with_placeholders() {
    assert_eq!(
        company_overview_line("RELIANCE.NS", Some("Reliance Industries"), Some("Energy"), None),
        "Reliance Industries (RELIANCE.NS) operates in Energy / N/A."
    );
    assert_eq!(company_overview_line("X.NS", None, None, None), "X.NS (X.NS) operates in N/A / N/A.");
}

#[test]
fn short_summary_truncates_at_480_characters() {
    let long = "a".repeat(500);
    let s = short_business_summary(Some(&long));
    assert_eq!(s.chars().count(), 481);
    assert!(s.ends_with('…'));
    assert_eq!(short_business_summary(Some("short")), "short");
    assert_eq!(short_business_summary(None), "");
    let wide = "é".repeat(300);
    let s = short_business_summary(Some(&wide));
    assert_eq!(s.chars().count(), 301);
    assert!(s.ends_with('…'));
    let exact = "b".repeat(480);
    assert_eq!(short_business_summary(Some(&exact)).chars().count(), 481);
}

#[test]
fn sector_outlook_lines() {
    let text = r#"{"quoteSummary":{"result":[{"assetProfile":{"sector":"Energy"}}]}}"#;
    assert_eq!(sector_outlook_line(Some(text)), "Sector: Energy. General outlook for this sector is Neutral/Positive.");
    assert_eq!(sector_outlook_line(Some(r#"{"quoteSummary":{"result":[{}]}}"#)), "No sector data found");
    assert_eq!(sector_outlook_line(None), "Sector data unavailable due to error");
}

fn signals(known: bool) -> MonitorableSignals {
    MonitorableSignals {
        pb_and_roe_known: known,
        roe_known: known,
        revenue_growing: known,
        healthy_margin: false,
        debt_comfortable: Some(true),
        cash_strong: None,
    }
}

#[test]
fn bank_monitorables_are_not_industrial() {
    let m = build_monitorables(&signals(true), FinancialCompanyType::Bank);
    assert_eq!(m.len(), 14);
    assert!(m.iter().any(|x| x.area == "CASA ratio"));
    assert!(m.iter().all(|x| x.area != "Revenue" && x.area != "Capex"));
    assert_eq!(m[9].status, "Yahoo ROE/ROA present");
    assert_eq!(m[13].status, "Reassess each result");
    let m = build_monitorables(&signals(false), FinancialCompanyType::Bank);
    assert_eq!(m[13].status, "P/B or ROE missing");
}

#[test]
fn lender_and_industrial_monitorables() {
    let m = build_monitorables(&signals(false), FinancialCompanyType::NbfcProjectFinance);
    assert_eq!(m.len(), 11);
    assert_eq!(m[9].area, "Sector concentration");
    assert_eq!(m[10].status, "P/B or ROE missing");
    let m = build_monitorables(&signals(true), FinancialCompanyType::Industrial);
    let statuses: Vec<&str> = m.iter().map(|x| x.status.as_str()).collect();
    assert_eq!(statuses[0], "On track");
    assert_eq!(statuses[1], "Watch");
    assert_eq!(statuses[4], "Comfortable");
    assert_eq!(statuses[5], "Unknown");
    assert_eq!(m.len(), 10);
}

#[test]
fn bank_templates_are_not_nbfc_project_finance() {
    // P/E 15.75, P/B 1.83 and ROE 13.8% reported; no promoter pledge.
    let f = MonitorableSignals {
        pb_and_roe_known: true,
        roe_known: true,
        revenue_growing: false,
        healthy_margin: false,
        debt_comfortable: None,
        cash_strong: None,
    };
    let m = build_monitorables(&f, FinancialCompanyType::Bank);
    assert!(m.iter().any(|x| x.area == "CASA ratio"));
    assert!(m.iter().any(|x| x.area == "Deposit growth"));
    assert!(!m.iter().any(|x| x.area == "Disbursements"));
    assert!(!m.iter().any(|x| x.area.contains("Borrowing mix")));
    let nbfc = build_monitorables(&f, FinancialCompanyType::NbfcProjectFinance);
    assert!(nbfc.iter().any(|x| x.area == "Disbursements"));
    let risks = lender_risks(FinancialCompanyType::Bank, false, false);
    assert!(!risks.business_risks.iter().any(|r| r.risk.contains("discom") || r.risk.contains("Power")));
    assert!(risks.financial_risks.iter().any(|r| r.note.contains("RBI Basel") || r.risk.contains("LDR")));
}

#[test]
fn lender_risk_buckets_by_type_and_flags() {
    let r = lender_risks(FinancialCompanyType::NbfcProjectFinance, true, true);
    assert_eq!(r.business_risks.len(), 5);
    assert_eq!(r.business_risks[0].risk, "Power-sector concentration");
    assert_eq!(r.business_risks[4].risk, "Renewables underwriting risk");
    assert_eq!(r.management_risks.len(), 3);
    assert_eq!(r.management_risks[2].risk, "Pledge");
    assert_eq!(r.valuation_risks[1].risk, "Rich P/E for a lender");
    assert_eq!(r.regulatory_risks.len(), 2);
    let n = lender_risks(FinancialCompanyType::Nbfc, false, false);
    assert_eq!(n.business_risks.len(), 4);
    assert_eq!(n.business_risks[1].risk, "Public-sector / utility counterparty risk");
    assert_eq!(n.valuation_risks.len(), 1);
    assert!(n.financial_risks.iter().all(|x| x.category == RiskCategory::Financial));
    let b = lender_risks(FinancialCompanyType::Bank, true, true);
    assert_eq!(b.valuation_risks[1].risk, "Rich P/E for a bank");
    assert_eq!(b.management_risks[2].severity, "High");
}
