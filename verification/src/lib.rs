//! NSE-focused stock research core: symbol resolution, data-source policy,
//! lender classification, statement ordering and Screener.in table parsing,
//! each stated as a contract and proved.

pub mod analysis;
pub mod buffett_lens;
pub mod canonical;
pub mod company_news;
pub mod data_coverage;
pub mod decision_laws;
pub mod error;
pub mod fetcher;
pub mod financial_company;
pub mod financial_strength_audit;
pub mod fundamental_analysis;
pub mod fundamentals_timeseries;
pub mod http_policy;
pub mod import_payload;
pub mod laws;
pub mod models;
pub mod paths;
pub mod provider_search;
pub mod pl_bs_quality;
pub mod research_summary;
pub mod screener_in;
pub mod sector_research;
pub mod statements;
pub mod symbol;
pub mod text;

pub use error::{Result, StockerError};
pub use models::{AuditStatus, FinancialCompanyType};
pub use symbol::{
    india_base_symbol, india_display_ticker, india_exchange_label,
    normalize_nse_symbol, nse_csv_indices, resolve_india_symbol, to_yahoo_bse_symbol,
    IndiaSymbolContext, NseCsvIndices,
};
