use stocker_core::fundamental_analysis::{
    bank_portfolio_efficiency_section, fundamental_confidence, lender_section_confidence, na_line,
};

#[test]
fn statement_count_confidence() {
    assert_eq!(fundamental_confidence(0), "Low");
    assert_eq!(fundamental_confidence(2), "Medium");
    assert_eq!(fundamental_confidence(3), "High");
}

#[test]
fn lender_coverage_confidence_thresholds() {
    assert_eq!(lender_section_confidence(3, 4), "High");
    assert_eq!(lender_section_confidence(2, 5), "Medium");
    assert_eq!(lender_section_confidence(1, 3), "Low");
    assert_eq!(lender_section_confidence(0, 5), "Low");
    assert_eq!(lender_section_confidence(5, 0), "Low");
    assert_eq!(lender_section_confidence(6, 8), "High");
    assert_eq!(lender_section_confidence(5, 8), "Medium");
}

#[test]
fn portfolio_mix_section_is_filing_only() {
    let s = bank_portfolio_efficiency_section(true);
    assert_eq!(s.title, "Portfolio mix & operating efficiency");
    assert_eq!(s.confidence, "Low");
    assert_eq!(s.lines.len(), 9);
    assert_eq!(s.lines[0].0, "Retail loans %");
    assert_eq!(s.lines[8].0, "Fee income share");
    assert!(s.lines.iter().all(|l| l.1 == "N/A in Yahoo — filing verification required"));
    assert!(s.flags.is_empty());
    assert_eq!(bank_portfolio_efficiency_section(false).confidence, "Low");
    assert_eq!(na_line("GNPA", "why"), ("GNPA".to_string(), "why".to_string()));
}
