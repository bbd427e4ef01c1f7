//! Plain data types shared by the research modules.

use vstd::prelude::*;

verus! {

/// What kind of listed company this is, so lenders are not scored as industrials.
#[derive(Debug, Clone, Copy, PartialEq, Eq, Structural)]
pub enum FinancialCompanyType {
    Industrial,
    Bank,
    Nbfc,
    NbfcProjectFinance,
    HousingFinance,
    Insurance,
    Amc,
    Broker,
    Exchange,
    Payments,
}

impl Default for FinancialCompanyType {
    fn default() -> (r: Self)
        ensures
            r == FinancialCompanyType::Industrial,
    {
        FinancialCompanyType::Industrial
    }
}

/// The wire name of each company type.
pub open spec fn company_type_code(t: FinancialCompanyType) -> Seq<char> {
    match t {
        FinancialCompanyType::Industrial => "INDUSTRIAL"@,
        FinancialCompanyType::Bank => "BANK"@,
        FinancialCompanyType::Nbfc => "NBFC"@,
        FinancialCompanyType::NbfcProjectFinance => "NBFC_PROJECT_FINANCE"@,
        FinancialCompanyType::HousingFinance => "HOUSING_FINANCE"@,
        FinancialCompanyType::Insurance => "INSURANCE"@,
        FinancialCompanyType::Amc => "AMC"@,
        FinancialCompanyType::Broker => "BROKER"@,
        FinancialCompanyType::Exchange => "EXCHANGE"@,
        FinancialCompanyType::Payments => "PAYMENTS"@,
    }
}

impl FinancialCompanyType {
    /// Upper snake-case name of the type (its serialized form).
    pub fn as_str(&self) -> (r: &'static str)
        ensures
            r@ == company_type_code(*self),
    {
        match self {
            FinancialCompanyType::Industrial => "INDUSTRIAL",
            FinancialCompanyType::Bank => "BANK",
            FinancialCompanyType::Nbfc => "NBFC",
            FinancialCompanyType::NbfcProjectFinance => "NBFC_PROJECT_FINANCE",
            FinancialCompanyType::HousingFinance => "HOUSING_FINANCE",
            FinancialCompanyType::Insurance => "INSURANCE",
            FinancialCompanyType::Amc => "AMC",
            FinancialCompanyType::Broker => "BROKER",
            FinancialCompanyType::Exchange => "EXCHANGE",
            FinancialCompanyType::Payments => "PAYMENTS",
        }
    }
}

/// Outcome of one financial-strength checklist item.
#[derive(Debug, Clone, Copy, PartialEq, Eq, Structural)]
pub enum AuditStatus {
    Pass,
    Watch,
    Fail,
    InsufficientData,
}

/// The wire name of each audit status.
pub open spec fn audit_status_code(s: AuditStatus) -> Seq<char> {
    match s {
        AuditStatus::Pass => "pass"@,
        AuditStatus::Watch => "watch"@,
        AuditStatus::Fail => "fail"@,
        AuditStatus::InsufficientData => "insufficient_data"@,
    }
}

impl AuditStatus {
    /// Snake-case name of the status (its serialized form).
    pub fn as_str(&self) -> (r: &'static str)
        ensures
            r@ == audit_status_code(*self),
    {
        match self {
            AuditStatus::Pass => "pass",
            AuditStatus::Watch => "watch",
            AuditStatus::Fail => "fail",
            AuditStatus::InsufficientData => "insufficient_data",
        }
    }
}

/// Company profile fields from the data provider.
#[derive(Debug)]
pub struct AssetProfile {
    pub long_name: Option<String>,
    pub sector: Option<String>,
    pub industry: Option<String>,
    pub long_business_summary: Option<String>,
    pub website: Option<String>,
    pub country: Option<String>,
    /// Always `NSE` or `BSE` when populated.
    pub exchange: Option<String>,
    pub currency: Option<String>,
}

impl Default for AssetProfile {
    /// A profile with every field missing.
    fn default() -> (r: Self)
        ensures
            r.long_name is None,
            r.sector is None,
            r.industry is None,
            r.long_business_summary is None,
            r.website is None,
            r.country is None,
            r.exchange is None,
            r.currency is None,
    {
        AssetProfile {
            long_name: None,
            sector: None,
            industry: None,
            long_business_summary: None,
            website: None,
            country: None,
            exchange: None,
            currency: None,
        }
    }
}

/// One news headline.
#[derive(Debug)]
pub struct NewsItem {
    pub title: String,
    pub link: String,
    pub published_at: String,
}

/// Analyst recommendation counts for one period.
#[derive(Debug)]
pub struct AnalystRecommendationPeriod {
    pub period: String,
    pub strong_buy: u32,
    pub buy: u32,
    pub hold: u32,
    pub sell: u32,
    pub strong_sell: u32,
}

/// Analyst recommendation trend and its latest net reading.
#[derive(Debug)]
pub struct AnalystRecommendations {
    pub trend: Vec<AnalystRecommendationPeriod>,
    /// (strong_buy + buy) - (sell + strong_sell) for the latest month.
    pub net_bullish_score: i32,
    pub consensus_label: String,
}

/// What to do when holding or considering the stock.
#[derive(Debug)]
pub struct ActionGuidance {
    pub if_holding: String,
    pub if_considering_entry: String,
    pub wait_for_events: Vec<String>,
    pub headline: String,
    pub rationale_bullets: Vec<String>,
}

/// One item to track after buying.
#[derive(Debug)]
pub struct MonitorableItem {
    pub area: String,
    pub what_to_track: String,
    pub status: String,
}

/// Which bucket a risk belongs to.
#[derive(Debug, Clone, Copy, PartialEq, Eq, Structural)]
pub enum RiskCategory {
    Business,
    Financial,
    Management,
    Valuation,
    Regulatory,
}

/// One risk with its severity.
#[derive(Debug)]
pub struct RiskItem {
    pub category: RiskCategory,
    pub risk: String,
    pub severity: String,
    pub note: String,
}

/// Risks grouped by category.
#[derive(Debug)]
pub struct RiskBuckets {
    pub business_risks: Vec<RiskItem>,
    pub financial_risks: Vec<RiskItem>,
    pub management_risks: Vec<RiskItem>,
    pub valuation_risks: Vec<RiskItem>,
    pub regulatory_risks: Vec<RiskItem>,
}

/// Base, upside and downside narratives.
#[derive(Debug)]
pub struct ScenarioAnalysis {
    pub base_case: String,
    pub upside_case: String,
    pub downside_case: String,
    pub capital_impairment_guardrail: String,
}

/// Executive summary bullets.
#[derive(Debug)]
pub struct ReportInsights {
    pub executive_summary: String,
    pub strengths: Vec<String>,
    pub watch_items: Vec<String>,
    pub data_notes: Vec<String>,
    pub data_strengths: Vec<String>,
}

/// Industry lifecycle phase.
#[derive(Debug, Clone, Copy, PartialEq, Eq, Structural)]
pub enum SectorLifecyclePhase {
    Startup,
    Growth,
    Consolidation,
    MaturityOrDecline,
}

/// Lifecycle phase with its reasoning.
#[derive(Debug)]
pub struct SectorLifecycle {
    pub phase: SectorLifecyclePhase,
    pub narrative: String,
    pub evidence: Vec<String>,
}

/// Growth / cyclical / defensive character of a sector.
#[derive(Debug, Clone, Copy, PartialEq, Eq, Structural)]
pub enum SectorTypeKind {
    Growth,
    Cyclical,
    Defensive,
    CyclicalGrowth,
}

/// Sector type with its reasoning.
#[derive(Debug)]
pub struct SectorTypeAssessment {
    pub sector_type: SectorTypeKind,
    pub narrative: String,
    pub evidence: Vec<String>,
}

/// Demand versus supply balance.
#[derive(Debug, Clone, Copy, PartialEq, Eq, Structural)]
pub enum DemandSupplyGap {
    Shortage,
    Balanced,
    Oversupply,
}

/// Market structure among listed peers.
#[derive(Debug, Clone, Copy, PartialEq, Eq, Structural)]
pub enum CompetitionStructure {
    Fragmented,
    ModeratelyConcentrated,
    Oligopolistic,
}

/// Competition structure with its reasoning.
#[derive(Debug)]
pub struct CompetitionNature {
    pub structure: CompetitionStructure,
    pub narrative: String,
    pub evidence: Vec<String>,
}

/// Cohort profitability level.
#[derive(Debug, Clone, Copy, PartialEq, Eq, Structural)]
pub enum ProfitabilityLevel {
    High,
    Moderate,
    Low,
    Mixed,
}

/// Cohort growth outlook level.
#[derive(Debug, Clone, Copy, PartialEq, Eq, Structural)]
pub enum GrowthProspectsLevel {
    Strong,
    Moderate,
    Weak,
    Contracting,
}

/// Pricing power of suppliers or customers.
#[derive(Debug, Clone, Copy, PartialEq, Eq, Structural)]
pub enum PricingPowerLevel {
    Low,
    Moderate,
    High,
}

/// One section of the fundamental analysis: labelled lines plus a read.
#[derive(Debug)]
pub struct FundamentalSection {
    pub title: String,
    pub interpretation: String,
    pub flags: Vec<String>,
    pub confidence: String,
    pub lines: Vec<(String, String)>,
}

/// The five sections of the fundamental analysis.
#[derive(Debug)]
pub struct FundamentalAnalysis {
    pub growth: FundamentalSection,
    pub profitability: FundamentalSection,
    pub balance_sheet: FundamentalSection,
    pub cash_flow: FundamentalSection,
    pub efficiency: FundamentalSection,
}

/// Boolean technical flags; `None` when the input series was too short.
#[derive(Debug, Clone, Copy, PartialEq, Eq, Structural)]
pub struct TechnicalState {
    pub above_dma50: Option<bool>,
    pub above_dma200: Option<bool>,
    /// RSI < 30
    pub rsi_oversold: Option<bool>,
    /// RSI < 40
    pub rsi_weak: Option<bool>,
    /// RSI < 35 (entry-zone heuristic)
    pub rsi_below_35: Option<bool>,
    pub macd_bullish: Option<bool>,
    pub price_stretched_vs_50: Option<bool>,
}

/// Entry-zone read from technicals versus fundamentals.
#[derive(Debug)]
pub struct TechnicalEntrySignal {
    pub zone: String,
    pub detail_label: String,
    pub rationale: Vec<String>,
    pub fundamental_vs_technical: String,
}

/// Plain-language research summary.
#[derive(Debug)]
pub struct ResearchSummary {
    pub business_quality: String,
    pub growth: String,
    pub valuation: String,
    pub technical_position: String,
    pub key_risks: String,
    pub final_view: String,
    pub key_positives: Vec<String>,
    pub key_negatives: Vec<String>,
    pub key_monitorables: Vec<String>,
    pub suggested_action: String,
    pub action_guidance: ActionGuidance,
    pub disclaimer: String,
    pub company_type_headline: String,
    pub executive_blocks: Vec<(String, String)>,
}

/// One labelled row of a Screener.in table, one cell per period.
#[derive(Debug)]
pub struct FinancialTableRow {
    pub label: String,
    pub values: Vec<String>,
    pub is_pct: bool,
}

/// A Screener.in financial table.
#[derive(Debug)]
pub struct FinancialTable {
    pub period_dates: Vec<String>,
    pub rows: Vec<FinancialTableRow>,
    pub unit: String,
    pub source: String,
}

/// Quarterly and annual tables from Screener.in.
#[derive(Debug)]
pub struct ScreenerFinancials {
    pub quarterly: FinancialTable,
    pub profit_loss: FinancialTable,
    pub balance_sheet: FinancialTable,
    pub cash_flow: FinancialTable,
}

/// One finding of the P&L / balance-sheet quality review.
#[derive(Debug)]
pub struct PlBsQualityLine {
    pub area: String,
    pub finding: String,
    pub severity: String,
}

/// Statement-scope consistency of a level series.
#[derive(Debug)]
pub struct SeriesCheck {
    /// Count of newest points that look like one statement scope.
    pub suffix_len: usize,
    pub flags: Vec<String>,
}

} // verus!
