use stocker_core::financial_company::{
    classify_financial_company, classify_from_lowered, company_type_label, curated_direct_peers,
    lender_sector_outlook, peer_comparability_for, ticker_base,
};
use stocker_core::models::{AssetProfile, FinancialCompanyType};

#[test]
fn rec_is_nbfc_project_finance() {
    let profile = AssetProfile {
        sector: Some("Financial Services".into()),
        industry: Some("Credit Services".into()),
        long_name: Some("REC Limited".into()),
        long_business_summary: Some(
            "REC Limited finances and promotes rural electrification projects across India.".into(),
        ),
        ..Default::default()
    };
    assert_eq!(
        classify_financial_company("RECLTD.NS", &profile),
        FinancialCompanyType::NbfcProjectFinance
    );
}

#[test]
fn sbin_is_bank() {
    let profile = AssetProfile {
        sector: Some("Financial Services".into()),
        industry: Some("Banks - Regional".into()),
        ..Default::default()
    };
    assert_eq!(
        classify_financial_company("SBIN.NS", &profile),
        FinancialCompanyType::Bank
    );
}

#[test]
fn project_finance_sector_outlook_is_not_porter() {
    let s = lender_sector_outlook(
        FinancialCompanyType::NbfcProjectFinance,
        Some("Financial Services"),
        Some("Credit Services"),
    );
    assert!(s.contains("credit growth"));
    assert!(s.contains("discom") || s.contains("state-utility") || s.contains("state utility"));
    assert!(s.contains("Porter"));
}

#[test]
fn reliance_is_industrial() {
    let profile = AssetProfile {
        sector: Some("Energy".into()),
        industry: Some("Oil & Gas Refining & Marketing".into()),
        ..Default::default()
    };
    assert_eq!(
        classify_financial_company("RELIANCE.NS", &profile),
        FinancialCompanyType::Industrial
    );
}

#[test]
fn classification_branches() {
    assert_eq!(
        classify_from_lowered("X", "financial services", "insurance - life", "", ""),
        FinancialCompanyType::Insurance
    );
    assert_eq!(
        classify_from_lowered("X", "financial services", "asset management", "", ""),
        FinancialCompanyType::Amc
    );
    assert_eq!(
        classify_from_lowered("MCX", "financial services", "capital markets", "", ""),
        FinancialCompanyType::Exchange
    );
    assert_eq!(
        classify_from_lowered("X", "financial services", "capital markets", "", ""),
        FinancialCompanyType::Broker
    );
    assert_eq!(
        classify_from_lowered("X", "financial services", "mortgage finance", "", ""),
        FinancialCompanyType::HousingFinance
    );
    assert_eq!(
        classify_from_lowered("PFC", "financial services", "mortgage finance", "", ""),
        FinancialCompanyType::NbfcProjectFinance
    );
    assert_eq!(
        classify_from_lowered("X", "financial services", "credit services", "consumer loans", ""),
        FinancialCompanyType::Nbfc
    );
    assert_eq!(
        classify_from_lowered("X", "financial services", "", "", ""),
        FinancialCompanyType::Nbfc
    );
    assert_eq!(
        classify_from_lowered("X", "technology", "software", "", ""),
        FinancialCompanyType::Industrial
    );
}

#[test]
fn ticker_base_strips_one_suffix() {
    assert_eq!(ticker_base(" sbin.ns "), "SBIN");
    assert_eq!(ticker_base("PFC.BO"), "PFC");
    assert_eq!(ticker_base("X.NS.NS"), "X.NS");
}

#[test]
fn curated_peers_drop_the_subject() {
    let peers = curated_direct_peers("PFC.NS", FinancialCompanyType::NbfcProjectFinance);
    assert_eq!(peers, vec!["IREDA.NS", "IRFC.NS", "HUDCO.NS"]);
    assert!(curated_direct_peers("RELIANCE.NS", FinancialCompanyType::Industrial).is_empty());
    assert_eq!(curated_direct_peers("SBIN", FinancialCompanyType::Bank).len(), 4);
}

#[test]
fn comparability_and_labels() {
    let (lvl, direct, bank) = peer_comparability_for(FinancialCompanyType::Bank);
    assert_eq!(lvl, "high");
    assert_eq!(direct, "Direct peer comparability: High (banks)");
    assert_eq!(bank, "Bank comparability: High");
    let (lvl, direct, bank) = peer_comparability_for(FinancialCompanyType::Industrial);
    assert_eq!((lvl.as_str(), direct.as_str(), bank.as_str()), ("medium", "", ""));
    assert_eq!(company_type_label(FinancialCompanyType::Amc), "Asset manager");
    assert_eq!(FinancialCompanyType::NbfcProjectFinance.as_str(), "NBFC_PROJECT_FINANCE");
    assert!(FinancialCompanyType::HousingFinance.is_lender());
    assert!(!FinancialCompanyType::Insurance.is_lender());
    assert!(FinancialCompanyType::Insurance.is_financial());
}

#[test]
fn sector_outlook_header_variants() {
    let s = lender_sector_outlook(FinancialCompanyType::Bank, Some("Financial Services"), Some(""));
    assert!(s.starts_with("Sector: Financial Services. For lenders"));
    let s = lender_sector_outlook(FinancialCompanyType::Bank, None, Some("Banks"));
    assert!(s.starts_with("For lenders"));
}
