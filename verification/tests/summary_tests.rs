use stocker_core::models::{
    ActionGuidance, FinancialCompanyType, RiskBuckets, RiskCategory, RiskItem, TechnicalState,
};
use stocker_core::research_summary::{
    build_research_summary_for, summarize_risks, technical_position_from_state, SummaryInputs,
};

fn risk(category: RiskCategory, risk: &str, severity: &str) -> RiskItem {
    RiskItem { category, risk: risk.to_string(), severity: severity.to_string(), note: String::new() }
}

fn buckets(financial: Vec<RiskItem>, valuation: Vec<RiskItem>) -> RiskBuckets {
    RiskBuckets {
        business_risks: vec![],
        financial_risks: financial,
        management_risks: vec![],
        valuation_risks: valuation,
        regulatory_risks: vec![],
    }
}

#[test]
fn key_risks_take_two_financial_and_one_valuation() {
    let b = buckets(
        vec![
            risk(RiskCategory::Financial, "High leverage", "High"),
            risk(RiskCategory::Financial, "Weak cash conversion", "Medium"),
            risk(RiskCategory::Financial, "Third", "Low"),
        ],
        vec![risk(RiskCategory::Valuation, "Rich multiple", "Low"), risk(RiskCategory::Valuation, "x", "y")],
    );
    assert_eq!(summarize_risks(&b), "High leverage (High); Weak cash conversion (Medium); Rich multiple (Low)");
    assert_eq!(
        summarize_risks(&buckets(vec![], vec![])),
        "No automated high-severity flags beyond generic sector risks."
    );
    let only_val = buckets(vec![], vec![risk(RiskCategory::Valuation, "Rich", "High")]);
    assert_eq!(summarize_risks(&only_val), "Rich (High)");
}

fn state() -> TechnicalState {
    TechnicalState {
        above_dma50: None,
        above_dma200: None,
        rsi_oversold: None,
        rsi_weak: None,
        rsi_below_35: None,
        macd_bullish: None,
        price_stretched_vs_50: None,
    }
}

#[test]
fn technical_position_sentence() {
    let mut st = state();
    st.above_dma50 = Some(true);
    st.above_dma200 = Some(false);
    st.macd_bullish = Some(true);
    assert_eq!(
        technical_position_from_state(&st, true, "Neutral"),
        "Price is above 50 DMA and below 200 DMA; RSI Neutral; MACD bullish."
    );
    st.rsi_below_35 = Some(false);
    st.rsi_weak = Some(true);
    st.price_stretched_vs_50 = Some(true);
    assert_eq!(
        technical_position_from_state(&st, true, "Neutral"),
        "Price is above 50 DMA and below 200 DMA; RSI weak (<40); MACD bullish; price stretched vs 50 DMA."
    );
    assert_eq!(
        technical_position_from_state(&state(), false, ""),
        "Technical state incomplete (missing SMA/RSI)."
    );
    let mut st = state();
    st.rsi_oversold = Some(true);
    st.above_dma200 = Some(true);
    assert_eq!(technical_position_from_state(&st, true, "Oversold"), "Price is above 200 DMA; RSI oversold (<30).");
}

#[test]
fn summary_does_not_claim_rsi_below_35_when_flag_false() {
    let st = TechnicalState {
        above_dma50: Some(true),
        above_dma200: Some(false),
        rsi_oversold: Some(false),
        rsi_weak: Some(false),
        rsi_below_35: Some(false),
        macd_bullish: Some(true),
        price_stretched_vs_50: Some(false),
    };
    let rsi_14: Option<f64> = Some(49.04);
    let s = technical_position_from_state(&st, rsi_14.is_some(), "Neutral");
    assert!(!s.contains("RSI below 35"));
    assert!(!s.to_lowercase().contains("oversold"));
    assert!(s.contains("above 50 DMA"));
    assert!(s.contains("below 200 DMA"));
}

fn strings(v: &[&str]) -> Vec<String> {
    v.iter().map(|s| s.to_string()).collect()
}

fn inputs(t: FinancialCompanyType, gated: bool) -> SummaryInputs {
    SummaryInputs {
        company_type: t,
        company_name: "HDFC Bank".to_string(),
        profitability: "High-quality returns".to_string(),
        growth: "Moderate growth".to_string(),
        balance_sheet: "Risky leverage".to_string(),
        cash_flow: "Weak cash conversion".to_string(),
        historical_classification: "Fair vs history".to_string(),
        peer_value_read: "in line".to_string(),
        valuation_label: "Fairly Valued".to_string(),
        technical_position: "Price is above 50 DMA.".to_string(),
        key_risks: "None".to_string(),
        strengths: strings(&["Strong ROE"]),
        red_flags: vec![],
        checklist: vec![("CRAR".to_string(), "18.2%".to_string())],
        recommendation_gated: gated,
        action_guidance: ActionGuidance {
            if_holding: "Hold".to_string(),
            if_considering_entry: "Wait".to_string(),
            wait_for_events: strings(&["Interest coverage recovering above 4x."]),
            headline: "If holding: Hold. If considering entry: Wait. Financial strength 60/100.".to_string(),
            rationale_bullets: vec![],
        },
        valuation_block: "P/E: 18.0x".to_string(),
        earnings_block: "FY PAT growth: +10.0%".to_string(),
        loan_growth_block: "Yahoo loans YoY: 12.0%".to_string(),
        coverage_block: "Overall 40%".to_string(),
        coverage_pct: "40".to_string(),
        overall_score: "62/100".to_string(),
        rating_label: "Hold".to_string(),
        financial_strength: "60/100".to_string(),
        audit_confidence: "Medium".to_string(),
        fundamental_vs_technical: "Neutral.".to_string(),
    }
}

#[test]
fn bank_key_monitorables_are_not_industrial() {
    let s = build_research_summary_for(inputs(FinancialCompanyType::Bank, false));
    assert!(s.key_monitorables.iter().any(|m| m.contains("CASA")));
    assert!(s.key_monitorables.iter().any(|m| m.contains("GNPA")));
    assert!(s.key_monitorables.iter().any(|m| m.contains("LDR")));
    assert!(!s.key_monitorables.iter().any(|m| m.contains("Revenue and margin")));
    assert!(!s.key_monitorables.iter().any(|m| m.contains("Free cash flow vs capex")));
    assert_eq!(s.suggested_action, "Wait for fundamental verification / technical confirmation");
    assert_eq!(s.company_type_headline, "HDFC Bank — Bank");
    assert_eq!(s.executive_blocks.len(), 8);
    assert_eq!(s.executive_blocks[2].1, "GNPA/Stage 3: N/A in Yahoo · Status: Filing verification required");
    assert_eq!(s.executive_blocks[3].1, "CRAR: 18.2% · Status: Filing verification required");
}

#[test]
fn withheld_lender_summary_drops_liquidity_notes() {
    let s = build_research_summary_for(inputs(FinancialCompanyType::Bank, true));
    assert_eq!(
        s.key_negatives,
        strings(&[
            "Yahoo lacks GNPA/NNPA/PCR, CRAR and NIM — do not treat as a value trap from debt/CFO.",
            "Data gaps may hide one-off items — verify in annual report.",
        ])
    );
    assert!(s.final_view.starts_with("Yahoo valuation must be read with incomplete filing coverage: Yahoo lacks the critical bank metrics"));
    assert!(s.final_view.contains("Coverage 40%. If holding: Hold."));
}

#[test]
fn industrial_summary_lists_and_view() {
    let s = build_research_summary_for(inputs(FinancialCompanyType::Industrial, false));
    assert_eq!(
        s.key_positives,
        strings(&["Strong ROE", "Solid profitability vs heuristic thresholds.", "Review competitive position and capital allocation in filings."])
    );
    assert_eq!(
        s.key_negatives,
        strings(&["Balance sheet / liquidity screen is tight.", "Cash conversion weaker than earnings.", "Data gaps may hide one-off items — verify in annual report."])
    );
    assert_eq!(
        s.key_monitorables,
        strings(&[
            "Interest coverage recovering above 4x.",
            "Revenue and margin trajectory vs guidance.",
            "Debt, refinancing, and interest coverage.",
            "Free cash flow vs capex and working capital.",
        ])
    );
    assert!(s.executive_blocks.is_empty());
    assert_eq!(s.valuation, "Fair vs history Peer read: in line");
    assert_eq!(
        s.final_view,
        "If holding: Hold. If considering entry: Wait. Financial strength 60/100. Overall score 62/100 — Hold. Financial strength 60/100 (confidence: Medium). Neutral."
    );
}
