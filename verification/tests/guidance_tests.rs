use stocker_core::financial_strength_audit::{build_action_guidance, AuditCheck, GuidanceInputs};
use stocker_core::models::AuditStatus;

fn check(metric: &str, status: AuditStatus) -> AuditCheck {
    AuditCheck { metric: metric.to_string(), status }
}

fn inputs(checklist: Vec<AuditCheck>) -> GuidanceInputs {
    GuidanceInputs {
        checklist,
        red_flags: vec![],
        earnings_quality_weak: false,
        balance_sheet_weak: false,
        strong: false,
        rating_at_least_65: false,
        rating_label: String::new(),
        valuation_label: String::new(),
        analyst_net_bullish_score: 0,
        insider_net_selling: false,
    }
}

fn passing_audit() -> Vec<AuditCheck> {
    vec![
        check("Cumulative CFO / PAT (3Y)", AuditStatus::Pass),
        check("Debt / equity", AuditStatus::Pass),
        check("Interest coverage", AuditStatus::Pass),
    ]
}

#[test]
fn action_guidance_buy_when_strong_and_cheap() {
    // A healthy audit (every check passes), rating 72 / quality 70, "Buy Candidate", "Cheap".
    let mut i = inputs(passing_audit());
    i.strong = true;
    i.rating_at_least_65 = true;
    i.rating_label = "Buy Candidate".to_string();
    i.valuation_label = "Cheap".to_string();
    let action = build_action_guidance(&i, "78");
    assert_eq!(action.if_considering_entry, "Buy");
    assert_eq!(action.if_holding, "Hold");
    assert_eq!(action.rationale_bullets, vec!["Strong financial audit with supportive valuation."]);
    assert_eq!(action.wait_for_events, vec!["Verify next quarterly results against this audit checklist."]);
    assert_eq!(action.headline, "If holding: Hold. If considering entry: Buy. Financial strength 78/100.");
}

#[test]
fn action_guidance_avoid_when_cfo_trails_pat() {
    // Operating cash flow far below profit: the cumulative CFO / PAT (3Y) check fails.
    let i = inputs(vec![
        check("Cumulative CFO / PAT (3Y)", AuditStatus::Fail),
        check("Debt / equity", AuditStatus::Pass),
    ]);
    let action = build_action_guidance(&i, "40");
    assert_eq!(action.if_considering_entry, "Avoid");
    assert!(action.if_holding == "Sell" || action.if_holding == "Trim");
    assert_eq!(action.rationale_bullets, vec!["Earnings quality screen failed — profits may not convert to cash."]);
    assert_eq!(
        action.wait_for_events,
        vec!["Next quarterly results — confirm CFO ≥ PAT and working capital stable."]
    );
}

#[test]
fn earnings_and_working_capital_stress_means_sell() {
    let mut i = inputs(vec![check("Cumulative CFO / PAT (3Y)", AuditStatus::Fail)]);
    i.red_flags = vec!["Receivables growing faster than revenue".to_string()];
    let action = build_action_guidance(&i, "30");
    assert_eq!((action.if_holding.as_str(), action.if_considering_entry.as_str()), ("Sell", "Avoid"));
    assert_eq!(
        action.rationale_bullets,
        vec![
            "Earnings quality screen failed — profits may not convert to cash.",
            "Combined earnings quality and balance sheet stress.",
        ]
    );
}

#[test]
fn bank_audit_reads_asset_quality_not_cash_conversion() {
    // In banking mode a failed CFO / PAT item is not an earnings-quality failure ...
    let mut i = inputs(vec![
        check("GNPA %", AuditStatus::Pass),
        check("Cumulative CFO / PAT (3Y)", AuditStatus::Fail),
    ]);
    i.earnings_quality_weak = true;
    let action = build_action_guidance(&i, "60");
    assert_eq!(action.if_considering_entry, "Wait");
    // ... but a failed PCR item is.
    i.checklist.push(check("PCR %", AuditStatus::Fail));
    let action = build_action_guidance(&i, "60");
    assert_eq!((action.if_holding.as_str(), action.if_considering_entry.as_str()), ("Trim", "Avoid"));
}

#[test]
fn balance_sheet_failure_trims() {
    let i = inputs(vec![check("Interest coverage", AuditStatus::Fail)]);
    let action = build_action_guidance(&i, "50");
    assert_eq!((action.if_holding.as_str(), action.if_considering_entry.as_str()), ("Trim", "Avoid"));
    assert_eq!(action.wait_for_events, vec!["Interest coverage recovering above 4x."]);
    assert!(action.rationale_bullets.is_empty());
}

#[test]
fn rich_quality_business_waits() {
    let mut i = inputs(passing_audit());
    i.strong = true;
    i.valuation_label = "Expensive vs history".to_string();
    let action = build_action_guidance(&i, "80");
    assert_eq!((action.if_holding.as_str(), action.if_considering_entry.as_str()), ("Hold", "Wait"));
    assert_eq!(action.rationale_bullets, vec!["Quality business but valuation is rich."]);
    assert_eq!(
        action.wait_for_events,
        vec!["Valuation correction toward historical median P/E or EV/EBITDA."]
    );
}

#[test]
fn rating_label_decides_when_audit_is_neutral() {
    let mut i = inputs(passing_audit());
    i.rating_label = "Buy Candidate".to_string();
    assert_eq!(build_action_guidance(&i, "55").if_considering_entry, "Buy");
    i.rating_label = "Avoid for now".to_string();
    assert_eq!(build_action_guidance(&i, "55").if_considering_entry, "Wait");
    i.rating_label = "Neutral".to_string();
    assert_eq!(build_action_guidance(&i, "55").if_considering_entry, "Wait");
}

#[test]
fn wait_events_are_capped_at_five() {
    let mut i = inputs(vec![
        check("Cumulative CFO / PAT (3Y)", AuditStatus::Fail),
        check("Receivable days", AuditStatus::Fail),
        check("Interest coverage", AuditStatus::Watch),
    ]);
    i.analyst_net_bullish_score = -3;
    i.insider_net_selling = true;
    i.valuation_label = "Value Trap".to_string();
    let action = build_action_guidance(&i, "20");
    assert_eq!(
        action.wait_for_events,
        vec![
            "Next quarterly results — confirm CFO ≥ PAT and working capital stable.",
            "Receivable days declining for two consecutive quarters.",
            "Interest coverage recovering above 4x.",
            "Analyst consensus shifting from Sell toward Hold or Buy.",
            "Insider net buying after recent selling period.",
        ]
    );
    i.analyst_net_bullish_score = -2;
    assert_eq!(build_action_guidance(&i, "20").wait_for_events.len(), 5);
}
