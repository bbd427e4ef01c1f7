use stocker_core::analysis::{
    compute_sector_analysis, compute_sector_analysis_for, peer_table_layout, sector_themes_from_titles,
    PeerName,
};
use stocker_core::models::{FinancialCompanyType, NewsItem};

fn news(titles: &[&str]) -> Vec<NewsItem> {
    titles
        .iter()
        .map(|t| NewsItem { title: t.to_string(), link: String::new(), published_at: String::new() })
        .collect()
}

#[test]
fn headline_themes_in_keyword_order() {
    let t = vec!["RBI policy ahead".to_string(), "Q2 EARNINGS beat".to_string()];
    assert_eq!(
        sector_themes_from_titles(&t),
        "Heuristic read on sample headlines: earnings & results, rates / policy."
    );
    assert_eq!(sector_themes_from_titles(&vec![]), "No headlines to theme.");
    assert_eq!(
        sector_themes_from_titles(&vec!["Quiet day".to_string()]),
        "Sector headlines present; no keyword themes matched in this pass."
    );
}

#[test]
fn industrial_sector_analysis() {
    let n = news(&["Exports rise", "Crude volatility", "Refiners gain", "Fourth story"]);
    let d = compute_sector_analysis(Some("Energy"), Some("Oil & Gas"), &n);
    assert_eq!(d.outlook_narrative, "Sector: Energy. Industry: Oil & Gas. Yahoo data only; treat as a starting point.");
    assert_eq!(d.sector_news_summary, "4 headline(s) matched sector/industry topic search.");
    assert_eq!(d.sample_headlines, vec!["Exports rise", "Crude volatility", "Refiners gain"]);
    assert_eq!(
        d.sector_headline_themes,
        "Heuristic read on sample headlines: exports & demand, volatility & sentiment."
    );
    assert_eq!(d.sector.as_deref(), Some("Energy"));
    let d = compute_sector_analysis(Some("Energy"), None, &[]);
    assert_eq!(d.outlook_narrative, "Sector: Energy.");
    assert_eq!(d.sector_news_summary, "No sector headlines returned.");
    let d = compute_sector_analysis(None, Some("Oil"), &[]);
    assert_eq!(d.outlook_narrative, "Sector metadata unavailable from data provider.");
}

#[test]
fn lender_sector_analysis_uses_credit_cycle() {
    let d = compute_sector_analysis_for(
        Some("Financial Services"),
        Some("Credit Services"),
        &[],
        FinancialCompanyType::NbfcProjectFinance,
    );
    assert!(d.outlook_narrative.starts_with("Sector: Financial Services. Industry: Credit Services. For project-finance NBFCs"));
    assert!(d.outlook_narrative.contains("state-utility"));
    assert!(!d.outlook_narrative.contains("Yahoo data only"));
    let d = compute_sector_analysis_for(None, None, &[], FinancialCompanyType::Bank);
    assert!(d.outlook_narrative.starts_with("For lenders, watch credit growth"));
    assert_eq!(d.sector_headline_themes, "No headlines to theme.");
}

fn name(symbol: &str, short: Option<&str>) -> PeerName {
    PeerName { symbol: symbol.to_string(), short_name: short.map(|s| s.to_string()) }
}

#[test]
fn lender_peer_table_drops_industrial_multiples() {
    let subject = name("RECLTD.NS", None);
    let rows = peer_table_layout(&subject, &[], FinancialCompanyType::NbfcProjectFinance).metrics;
    assert!(rows.iter().any(|r| r == "P/B"));
    assert!(rows.iter().any(|r| r == "NIM"));
    assert!(!rows.iter().any(|r| r.contains("EBITDA")));
    assert!(!rows.iter().any(|r| r.contains("Revenue growth")));
}

#[test]
fn peer_table_pads_with_the_company_and_labels_by_short_name() {
    let subject = name("RELIANCE.NS", Some("Reliance Industries"));
    let peers = vec![name("ONGC.NS", Some("  ")), name("IOC.NS", Some("Indian Oil"))];
    let t = peer_table_layout(&subject, &peers, FinancialCompanyType::Industrial);
    assert_eq!(t.company_label, "Reliance Industries");
    assert_eq!(t.peer_columns, vec![Some(0), Some(1), None]);
    assert_eq!(t.peer_labels, vec!["ONGC.NS", "Indian Oil", "Reliance Industries"]);
    assert_eq!(t.metrics.len(), 8);
    assert_eq!(t.metrics[0], "Revenue growth");
    assert_eq!(t.metrics[7], "EV/EBITDA (Yahoo stats if present, else quote cash)");
    let many: Vec<PeerName> = (0..5).map(|i| name(&format!("P{i}.NS"), None)).collect();
    let t = peer_table_layout(&name("X.NS", None), &many, FinancialCompanyType::Bank);
    assert_eq!(t.peer_columns, vec![Some(0), Some(1), Some(2)]);
    assert_eq!(t.peer_labels, vec!["P0.NS", "P1.NS", "P2.NS"]);
    assert_eq!(t.metrics.len(), 11);
    assert_eq!(t.metrics[10], "Dividend yield");
}
