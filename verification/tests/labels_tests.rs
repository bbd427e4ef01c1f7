use stocker_core::buffett_lens::{tier_label_str, BusinessTierLabel};
use stocker_core::canonical::peer_comparability;
use stocker_core::financial_strength_audit::{is_asset_light, is_bank};
use stocker_core::models::{AssetProfile, AuditStatus, CompetitionStructure, FinancialCompanyType, PlBsQualityLine};
use stocker_core::pl_bs_quality::push_line;
use stocker_core::sector_research::competition_label;

#[test]
fn energy_conglomerates_have_low_comparability() {
    assert_eq!(
        peer_comparability(Some("Oil & Gas Refining & Marketing"), Some("Refining, Jio telecom and retail.")),
        "low"
    );
    assert_eq!(peer_comparability(Some("Software"), Some("retail")), "medium");
    assert_eq!(peer_comparability(Some("Oil & Gas"), None), "medium");
    assert_eq!(peer_comparability(None, None), "medium");
}

#[test]
fn display_names() {
    assert_eq!(tier_label_str(BusinessTierLabel::Wonderful), "Wonderful");
    assert_eq!(tier_label_str(BusinessTierLabel::Weak), "Weak");
    assert_eq!(competition_label(CompetitionStructure::ModeratelyConcentrated), "Moderately concentrated");
    assert_eq!(competition_label(CompetitionStructure::Oligopolistic), "Oligopolistic");
    assert_eq!(FinancialCompanyType::NbfcProjectFinance.as_str(), "NBFC_PROJECT_FINANCE");
    assert_eq!(FinancialCompanyType::Industrial.as_str(), "INDUSTRIAL");
    assert_eq!(AuditStatus::InsufficientData.as_str(), "insufficient_data");
    assert_eq!(AuditStatus::Pass.as_str(), "pass");
}

#[test]
fn quality_lines_are_appended() {
    let mut lines: Vec<PlBsQualityLine> = Vec::new();
    push_line(&mut lines, "P&L", "Margins stable".to_string(), "info");
    push_line(&mut lines, "Balance sheet", "Debt rising".to_string(), "watch");
    assert_eq!(lines.len(), 2);
    assert_eq!(lines[1].area, "Balance sheet");
    assert_eq!(lines[1].finding, "Debt rising");
    assert_eq!(lines[1].severity, "watch");
    assert_eq!(lines[0].area, "P&L");
}

fn profile(sector: Option<&str>, industry: Option<&str>) -> AssetProfile {
    let mut p = AssetProfile::default();
    p.sector = sector.map(|s| s.to_string());
    p.industry = industry.map(|s| s.to_string());
    p
}

#[test]
fn profile_traits() {
    assert!(is_asset_light(&profile(Some("Technology"), Some("Information Technology Services"))));
    assert!(is_asset_light(&profile(None, Some("Internet Content"))));
    assert!(!is_asset_light(&profile(Some("Energy"), None)));
    assert!(is_bank(&profile(Some("Financial Services"), Some("Banks - Regional"))));
    assert!(is_bank(&profile(None, Some("NBFC"))));
    assert!(!is_bank(&profile(Some("Energy"), Some("Oil & Gas"))));
}
