//! Classify listed companies so financials (banks/NBFCs) are not scored as industrials.

use vstd::prelude::*;

use crate::models::{AssetProfile, FinancialCompanyType};
use crate::symbol::strip_yahoo_suffix;
use crate::text::{
    chars_eq_str, chars_of, contains_seq, contains_str, lower_chars, push_str, string_from_chars,
    string_of, string_views, trim, trim_str, unicode_lower, unicode_upper, upper_chars,
};

verus! {

pub const NA_NOT_MEANINGFUL: &'static str = "N/A — not meaningful for lending companies";

pub const NA_NOT_USED: &'static str = "N/A — not used for lenders";

pub const NA_NOT_APPLICABLE: &'static str = "N/A — not applicable";

pub const NA_NOT_PRIMARY: &'static str = "N/A — not a primary metric";

pub const NA_YAHOO: &'static str = "N/A in Yahoo";

pub const NA_FILING: &'static str = "N/A in Yahoo — filing verification required";

pub const NA_YAHOO_FILINGS_MAY_EXIST: &'static str =
    "Unavailable in Yahoo — not unavailable in public filings";

/// Upper-case ticker without its `.NS` / `.BO` suffix.
pub open spec fn ticker_base_of(symbol: Seq<char>) -> Seq<char> {
    strip_yahoo_suffix(unicode_upper(trim(symbol)))
}

fn ticker_base_chars(symbol: &str) -> (r: Vec<char>)
    ensures
        r@ == ticker_base_of(symbol@),
{
    let u = upper_chars(trim_str(symbol).as_slice());
    crate::symbol::strip_yahoo_suffix_chars(u.as_slice())
}

/// Upper-case ticker without its `.NS` / `.BO` suffix.
pub fn ticker_base(symbol: &str) -> (r: String)
    ensures
        r@ == ticker_base_of(symbol@),
{
    string_from_chars(ticker_base_chars(symbol).as_slice())
}

/// Project-finance lenders by ticker.
pub open spec fn is_project_finance_ticker(b: Seq<char>) -> bool {
    b == "RECLTD"@ || b == "PFC"@ || b == "IREDA"@ || b == "IRFC"@
}

/// Housing-finance lenders by ticker.
pub open spec fn is_housing_finance_ticker(b: Seq<char>) -> bool {
    b == "LICHSGFIN"@ || b == "CANFINHOME"@ || b == "PNBHOUSING"@ || b == "AAVAS"@ || b
        == "HOMEFIRST"@
}

/// Banks by ticker.
pub open spec fn is_bank_ticker(b: Seq<char>) -> bool {
    b == "HDFCBANK"@ || b == "ICICIBANK"@ || b == "KOTAKBANK"@ || b == "AXISBANK"@ || b
        == "SBIN"@ || b == "INDUSINDBK"@ || b == "IDFCFIRSTB"@ || b == "BANKBARODA"@ || b
        == "PNB"@ || b == "CANBK"@ || b == "UNIONBANK"@ || b == "BANKINDIA"@ || b == "YESBANK"@
        || b == "FEDERALBNK"@ || b == "AUBANK"@
}

/// Exchanges and depositories by ticker.
pub open spec fn is_exchange_ticker(b: Seq<char>) -> bool {
    b == "MCX"@ || b == "BSE"@ || b == "CDSL"@ || b == "NSDL"@
}

fn is_project_finance_ticker_exec(b: &[char]) -> (r: bool)
    ensures
        r == is_project_finance_ticker(b@),
{
    chars_eq_str(b, "RECLTD") || chars_eq_str(b, "PFC") || chars_eq_str(b, "IREDA")
        || chars_eq_str(b, "IRFC")
}

fn is_housing_finance_ticker_exec(b: &[char]) -> (r: bool)
    ensures
        r == is_housing_finance_ticker(b@),
{
    chars_eq_str(b, "LICHSGFIN") || chars_eq_str(b, "CANFINHOME") || chars_eq_str(b, "PNBHOUSING")
        || chars_eq_str(b, "AAVAS") || chars_eq_str(b, "HOMEFIRST")
}

fn is_bank_ticker_exec(b: &[char]) -> (r: bool)
    ensures
        r == is_bank_ticker(b@),
{
    chars_eq_str(b, "HDFCBANK") || chars_eq_str(b, "ICICIBANK") || chars_eq_str(b, "KOTAKBANK")
        || chars_eq_str(b, "AXISBANK") || chars_eq_str(b, "SBIN") || chars_eq_str(b, "INDUSINDBK")
        || chars_eq_str(b, "IDFCFIRSTB") || chars_eq_str(b, "BANKBARODA") || chars_eq_str(b, "PNB")
        || chars_eq_str(b, "CANBK") || chars_eq_str(b, "UNIONBANK") || chars_eq_str(b, "BANKINDIA")
        || chars_eq_str(b, "YESBANK") || chars_eq_str(b, "FEDERALBNK") || chars_eq_str(b, "AUBANK")
}

fn is_exchange_ticker_exec(b: &[char]) -> (r: bool)
    ensures
        r == is_exchange_ticker(b@),
{
    chars_eq_str(b, "MCX") || chars_eq_str(b, "BSE") || chars_eq_str(b, "CDSL") || chars_eq_str(
        b,
        "NSDL",
    )
}

/// The profile's sector or industry reads like a financial company.
pub open spec fn looks_financial(sector: Seq<char>, industry: Seq<char>) -> bool {
    contains_seq(sector, "financial"@) || contains_seq(industry, "bank"@) || contains_seq(
        industry,
        "nbfc"@,
    ) || contains_seq(industry, "credit"@) || contains_seq(industry, "insurance"@)
        || contains_seq(industry, "capital market"@) || contains_seq(industry, "asset management"@)
        || contains_seq(industry, "mortgage"@) || contains_seq(industry, "housing"@)
        || contains_seq(industry, "payment"@) || contains_seq(industry, "exchange"@)
}

/// The industry names a bank (and not an NBFC or credit business).
pub open spec fn bank_industry(industry: Seq<char>) -> bool {
    (contains_seq(industry, "banks"@) || contains_seq(industry, "bank -"@) || contains_seq(
        industry,
        "banks -"@,
    )) && !contains_seq(industry, "nbfc"@) && !contains_seq(industry, "credit"@)
}

/// The profile reads like a project-finance lender.
pub open spec fn project_finance_text(industry: Seq<char>, blob: Seq<char>) -> bool {
    contains_seq(blob, "project finance"@) || contains_seq(blob, "rural electrification"@)
        || contains_seq(blob, "power finance"@) || contains_seq(blob, "infrastructure finance"@)
        || contains_seq(blob, "railway finance"@) || (contains_seq(industry, "credit"@) && (
    contains_seq(blob, "power"@) || contains_seq(blob, "electrif"@) || contains_seq(
        blob,
        "infrastructure"@,
    ) || contains_seq(blob, "renewable"@)))
}

/// The profile reads like a non-bank lender.
pub open spec fn nbfc_text(industry: Seq<char>, summary: Seq<char>, name: Seq<char>) -> bool {
    contains_seq(industry, "credit"@) || contains_seq(industry, "nbfc"@) || contains_seq(
        name,
        "nbfc"@,
    ) || contains_seq(summary, "non-banking"@) || contains_seq(summary, "non banking"@)
}

/// Company type from the base ticker and the lower-cased profile texts.
pub open spec fn classify_lowered(
    base: Seq<char>,
    sector: Seq<char>,
    industry: Seq<char>,
    summary: Seq<char>,
    name: Seq<char>,
) -> FinancialCompanyType {
    let blob = sector + " "@ + industry + " "@ + summary + " "@ + name;
    if !looks_financial(sector, industry) {
        FinancialCompanyType::Industrial
    } else if contains_seq(industry, "insurance"@) || contains_seq(sector, "insurance"@) {
        FinancialCompanyType::Insurance
    } else if contains_seq(industry, "asset management"@) || contains_seq(
        industry,
        "investment management"@,
    ) {
        FinancialCompanyType::Amc
    } else if contains_seq(industry, "exchange"@) || is_exchange_ticker(base) {
        FinancialCompanyType::Exchange
    } else if contains_seq(industry, "payment"@) || (contains_seq(industry, "fintech"@)
        && contains_seq(summary, "payment"@)) {
        FinancialCompanyType::Payments
    } else if contains_seq(industry, "capital market"@) || contains_seq(industry, "broker"@)
        || contains_seq(industry, "wealth"@) {
        FinancialCompanyType::Broker
    } else if is_bank_ticker(base) || bank_industry(industry) {
        FinancialCompanyType::Bank
    } else if is_housing_finance_ticker(base) || contains_seq(industry, "mortgage"@)
        || contains_seq(industry, "housing"@) || contains_seq(name, "housing finance"@) {
        if is_project_finance_ticker(base) {
            FinancialCompanyType::NbfcProjectFinance
        } else {
            FinancialCompanyType::HousingFinance
        }
    } else if is_project_finance_ticker(base) || project_finance_text(industry, blob) {
        FinancialCompanyType::NbfcProjectFinance
    } else if nbfc_text(industry, summary, name) {
        FinancialCompanyType::Nbfc
    } else if contains_seq(industry, "bank"@) {
        FinancialCompanyType::Bank
    } else {
        FinancialCompanyType::Nbfc
    }
}

/// The characters of an optional text, empty when missing.
pub open spec fn opt_text(o: Option<String>) -> Seq<char> {
    match o {
        Some(s) => s@,
        None => Seq::empty(),
    }
}

fn opt_chars(o: &Option<String>) -> (r: Vec<char>)
    ensures
        r@ == opt_text(*o),
{
    match o {
        Some(s) => chars_of(s.as_str()),
        None => Vec::new(),
    }
}

fn looks_financial_exec(sector: &[char], industry: &[char]) -> (r: bool)
    ensures
        r == looks_financial(sector@, industry@),
{
    contains_str(sector, "financial") || contains_str(industry, "bank") || contains_str(
        industry,
        "nbfc",
    ) || contains_str(industry, "credit") || contains_str(industry, "insurance") || contains_str(
        industry,
        "capital market",
    ) || contains_str(industry, "asset management") || contains_str(industry, "mortgage")
        || contains_str(industry, "housing") || contains_str(industry, "payment") || contains_str(
        industry,
        "exchange",
    )
}

fn project_finance_text_exec(industry: &[char], blob: &[char]) -> (r: bool)
    ensures
        r == project_finance_text(industry@, blob@),
{
    contains_str(blob, "project finance") || contains_str(blob, "rural electrification")
        || contains_str(blob, "power finance") || contains_str(blob, "infrastructure finance")
        || contains_str(blob, "railway finance") || (contains_str(industry, "credit") && (
    contains_str(blob, "power") || contains_str(blob, "electrif") || contains_str(
        blob,
        "infrastructure",
    ) || contains_str(blob, "renewable")))
}

fn concat_with_space(a: &[char], b: &[char]) -> (r: Vec<char>)
    ensures
        r@ == a@ + " "@ + b@,
{
    let mut s = string_from_chars(a);
    push_str(&mut s, " ");
    crate::text::push_chars(&mut s, b);
    chars_of(s.as_str())
}

/// Company type from a base ticker and profile texts that are already lower-cased.
pub fn classify_from_lowered(
    base: &str,
    sector: &str,
    industry: &str,
    summary: &str,
    name: &str,
) -> (r: FinancialCompanyType)
    ensures
        r == classify_lowered(base@, sector@, industry@, summary@, name@),
{
    let b = chars_of(base);
    let sector = chars_of(sector);
    let industry = chars_of(industry);
    let summary = chars_of(summary);
    let name = chars_of(name);
    let s1 = concat_with_space(sector.as_slice(), industry.as_slice());
    let s2 = concat_with_space(s1.as_slice(), summary.as_slice());
    let blob = concat_with_space(s2.as_slice(), name.as_slice());
    let b = b.as_slice();
    let sector = sector.as_slice();
    let industry = industry.as_slice();
    let summary = summary.as_slice();
    let name = name.as_slice();
    let blob = blob.as_slice();
    if !looks_financial_exec(sector, industry) {
        return FinancialCompanyType::Industrial;
    }
    if contains_str(industry, "insurance") || contains_str(sector, "insurance") {
        return FinancialCompanyType::Insurance;
    }
    if contains_str(industry, "asset management") || contains_str(industry, "investment management") {
        return FinancialCompanyType::Amc;
    }
    if contains_str(industry, "exchange") || is_exchange_ticker_exec(b) {
        return FinancialCompanyType::Exchange;
    }
    if contains_str(industry, "payment") || (contains_str(industry, "fintech") && contains_str(
        summary,
        "payment",
    )) {
        return FinancialCompanyType::Payments;
    }
    if contains_str(industry, "capital market") || contains_str(industry, "broker")
        || contains_str(industry, "wealth") {
        return FinancialCompanyType::Broker;
    }
    if is_bank_ticker_exec(b) || ((contains_str(industry, "banks") || contains_str(
        industry,
        "bank -",
    ) || contains_str(industry, "banks -")) && !contains_str(industry, "nbfc") && !contains_str(
        industry,
        "credit",
    )) {
        return FinancialCompanyType::Bank;
    }
    if is_housing_finance_ticker_exec(b) || contains_str(industry, "mortgage") || contains_str(
        industry,
        "housing",
    ) || contains_str(name, "housing finance") {
        if is_project_finance_ticker_exec(b) {
            return FinancialCompanyType::NbfcProjectFinance;
        }
        return FinancialCompanyType::HousingFinance;
    }
    if is_project_finance_ticker_exec(b) || project_finance_text_exec(industry, blob) {
        return FinancialCompanyType::NbfcProjectFinance;
    }
    if contains_str(industry, "credit") || contains_str(industry, "nbfc") || contains_str(
        name,
        "nbfc",
    ) || contains_str(summary, "non-banking") || contains_str(summary, "non banking") {
        return FinancialCompanyType::Nbfc;
    }
    if contains_str(industry, "bank") {
        return FinancialCompanyType::Bank;
    }
    FinancialCompanyType::Nbfc
}

/// Company type of `symbol` with the given provider profile.
pub fn classify_financial_company(symbol: &str, profile: &AssetProfile) -> (r:
    FinancialCompanyType)
    ensures
        r == classify_lowered(
            ticker_base_of(symbol@),
            unicode_lower(opt_text(profile.sector)),
            unicode_lower(opt_text(profile.industry)),
            unicode_lower(opt_text(profile.long_business_summary)),
            unicode_lower(opt_text(profile.long_name)),
        ),
{
    let base = ticker_base(symbol);
    let sector = string_from_chars(lower_chars(opt_chars(&profile.sector).as_slice()).as_slice());
    let industry = string_from_chars(
        lower_chars(opt_chars(&profile.industry).as_slice()).as_slice(),
    );
    let summary = string_from_chars(
        lower_chars(opt_chars(&profile.long_business_summary).as_slice()).as_slice(),
    );
    let name = string_from_chars(lower_chars(opt_chars(&profile.long_name).as_slice()).as_slice());
    classify_from_lowered(
        base.as_str(),
        sector.as_str(),
        industry.as_str(),
        summary.as_str(),
        name.as_str(),
    )
}

/// Human-readable name of each company type.
pub open spec fn company_type_label_of(t: FinancialCompanyType) -> Seq<char> {
    match t {
        FinancialCompanyType::Industrial => "Industrial / operating company"@,
        FinancialCompanyType::Bank => "Bank"@,
        FinancialCompanyType::Nbfc => "NBFC"@,
        FinancialCompanyType::NbfcProjectFinance => "NBFC / Project Finance"@,
        FinancialCompanyType::HousingFinance => "Housing Finance"@,
        FinancialCompanyType::Insurance => "Insurance"@,
        FinancialCompanyType::Amc => "Asset manager"@,
        FinancialCompanyType::Broker => "Broker"@,
        FinancialCompanyType::Exchange => "Exchange"@,
        FinancialCompanyType::Payments => "Payments"@,
    }
}

/// Human-readable name of a company type.
pub fn company_type_label(t: FinancialCompanyType) -> (r: &'static str)
    ensures
        r@ == company_type_label_of(t),
{
    match t {
        FinancialCompanyType::Industrial => "Industrial / operating company",
        FinancialCompanyType::Bank => "Bank",
        FinancialCompanyType::Nbfc => "NBFC",
        FinancialCompanyType::NbfcProjectFinance => "NBFC / Project Finance",
        FinancialCompanyType::HousingFinance => "Housing Finance",
        FinancialCompanyType::Insurance => "Insurance",
        FinancialCompanyType::Amc => "Asset manager",
        FinancialCompanyType::Broker => "Broker",
        FinancialCompanyType::Exchange => "Exchange",
        FinancialCompanyType::Payments => "Payments",
    }
}

/// Lending companies: banks and the NBFC family.
pub open spec fn lender_type(t: FinancialCompanyType) -> bool {
    t == FinancialCompanyType::Bank || t == FinancialCompanyType::Nbfc || t
        == FinancialCompanyType::NbfcProjectFinance || t == FinancialCompanyType::HousingFinance
}

/// NBFC, project-finance NBFC and housing finance.
pub open spec fn nbfc_family_type(t: FinancialCompanyType) -> bool {
    t == FinancialCompanyType::Nbfc || t == FinancialCompanyType::NbfcProjectFinance || t
        == FinancialCompanyType::HousingFinance
}

impl FinancialCompanyType {
    /// Any financial company (not an industrial).
    pub fn is_financial(self) -> (r: bool)
        ensures
            r == (self != FinancialCompanyType::Industrial),
    {
        self != FinancialCompanyType::Industrial
    }

    /// Banks and the NBFC family.
    pub fn is_lender(self) -> (r: bool)
        ensures
            r == lender_type(self),
    {
        matches!(
            self,
            FinancialCompanyType::Bank | FinancialCompanyType::Nbfc
                | FinancialCompanyType::NbfcProjectFinance | FinancialCompanyType::HousingFinance
        )
    }

    /// Banks only.
    pub fn is_bank(self) -> (r: bool)
        ensures
            r == (self == FinancialCompanyType::Bank),
    {
        self == FinancialCompanyType::Bank
    }

    /// NBFC, project-finance NBFC and housing finance.
    pub fn is_nbfc_family(self) -> (r: bool)
        ensures
            r == nbfc_family_type(self),
    {
        matches!(
            self,
            FinancialCompanyType::Nbfc | FinancialCompanyType::NbfcProjectFinance
                | FinancialCompanyType::HousingFinance
        )
    }
}

/// The characters of each string in a list.
pub open spec fn str_views(v: Seq<&str>) -> Seq<Seq<char>> {
    v.map_values(|s: &str| s@)
}

/// Project-finance reference peers.
pub open spec fn project_finance_peers() -> Seq<Seq<char>> {
    seq!["PFC.NS"@, "IREDA.NS"@, "IRFC.NS"@, "HUDCO.NS"@]
}

/// NBFC reference peers.
pub open spec fn nbfc_peers() -> Seq<Seq<char>> {
    seq![
        "BAJFINANCE.NS"@,
        "CHOLAFIN.NS"@,
        "MUTHOOTFIN.NS"@,
        "SHRIRAMFIN.NS"@,
        "SUNDARMFIN.NS"@,
        "ABCAPITAL.NS"@,
        "POONAWALLA.NS"@,
        "MANAPPURAM.NS"@,
    ]
}

/// Housing-finance reference peers.
pub open spec fn housing_finance_peers() -> Seq<Seq<char>> {
    seq![
        "LICHSGFIN.NS"@,
        "CANFINHOME.NS"@,
        "PNBHOUSING.NS"@,
        "HUDCO.NS"@,
        "AAVAS.NS"@,
        "HOMEFIRST.NS"@,
    ]
}

/// Bank reference peers.
pub open spec fn bank_reference_peers() -> Seq<Seq<char>> {
    seq!["HDFCBANK.NS"@, "ICICIBANK.NS"@, "SBIN.NS"@, "AXISBANK.NS"@, "KOTAKBANK.NS"@]
}

/// Project-finance reference peers.
pub fn project_finance_peer_symbols() -> (r: Vec<&'static str>)
    ensures
        str_views(r@) == project_finance_peers(),
{
    let r = vec!["PFC.NS", "IREDA.NS", "IRFC.NS", "HUDCO.NS"];
    assert(str_views(r@) =~= project_finance_peers());
    r
}

/// NBFC reference peers.
pub fn nbfc_peer_symbols() -> (r: Vec<&'static str>)
    ensures
        str_views(r@) == nbfc_peers(),
{
    let r = vec![
        "BAJFINANCE.NS",
        "CHOLAFIN.NS",
        "MUTHOOTFIN.NS",
        "SHRIRAMFIN.NS",
        "SUNDARMFIN.NS",
        "ABCAPITAL.NS",
        "POONAWALLA.NS",
        "MANAPPURAM.NS",
    ];
    assert(str_views(r@) =~= nbfc_peers());
    r
}

/// Housing-finance reference peers.
pub fn housing_finance_peer_symbols() -> (r: Vec<&'static str>)
    ensures
        str_views(r@) == housing_finance_peers(),
{
    let r = vec![
        "LICHSGFIN.NS",
        "CANFINHOME.NS",
        "PNBHOUSING.NS",
        "HUDCO.NS",
        "AAVAS.NS",
        "HOMEFIRST.NS",
    ];
    assert(str_views(r@) =~= housing_finance_peers());
    r
}

/// Bank reference peers.
pub fn bank_reference_peer_symbols() -> (r: Vec<&'static str>)
    ensures
        str_views(r@) == bank_reference_peers(),
{
    let r = vec!["HDFCBANK.NS", "ICICIBANK.NS", "SBIN.NS", "AXISBANK.NS", "KOTAKBANK.NS"];
    assert(str_views(r@) =~= bank_reference_peers());
    r
}

/// The curated peer list for a company type (empty for non-lenders).
pub open spec fn curated_list(t: FinancialCompanyType) -> Seq<Seq<char>> {
    match t {
        FinancialCompanyType::NbfcProjectFinance => project_finance_peers(),
        FinancialCompanyType::HousingFinance => housing_finance_peers(),
        FinancialCompanyType::Nbfc => nbfc_peers(),
        FinancialCompanyType::Bank => bank_reference_peers(),
        _ => Seq::empty(),
    }
}

/// The entries of `list` whose ticker base differs from `base`, in order.
pub open spec fn peers_other_than(list: Seq<Seq<char>>, base: Seq<char>) -> Seq<Seq<char>>
    decreases list.len(),
{
    if list.len() == 0 {
        Seq::empty()
    } else {
        let rest = peers_other_than(list.drop_last(), base);
        if ticker_base_of(list.last()) != base {
            rest.push(list.last())
        } else {
            rest
        }
    }
}

/// Curated direct peers of `symbol` for its company type, without the symbol itself.
pub fn curated_direct_peers(symbol: &str, t: FinancialCompanyType) -> (r: Vec<String>)
    ensures
        string_views(r@) == peers_other_than(curated_list(t), ticker_base_of(symbol@)),
{
    let base = ticker_base_chars(symbol);
    let list = match t {
        FinancialCompanyType::NbfcProjectFinance => project_finance_peer_symbols(),
        FinancialCompanyType::HousingFinance => housing_finance_peer_symbols(),
        FinancialCompanyType::Nbfc => nbfc_peer_symbols(),
        FinancialCompanyType::Bank => bank_reference_peer_symbols(),
        _ => Vec::new(),
    };
    let ghost lv = str_views(list@);
    assert(lv == curated_list(t));
    let mut out: Vec<String> = Vec::new();
    let mut i: usize = 0;
    while i < list.len()
        invariant
            i <= list.len(),
            lv == str_views(list@),
            string_views(out@) == peers_other_than(lv.take(i as int), base@),
        decreases list.len() - i,
    {
        let s: &str = list[i];
        let b = ticker_base_chars(s);
        proof {
            assert(lv.take(i + 1).drop_last() =~= lv.take(i as int));
            assert(lv.take(i + 1).last() == s@);
        }
        if !crate::text::chars_eq(b.as_slice(), base.as_slice()) {
            out.push(string_of(s));
            assert(string_views(out@) =~= string_views(out@.drop_last()).push(s@));
        }
        i += 1;
    }
    assert(lv.take(list.len() as int) =~= lv);
    out
}

/// Direct-peer and bank comparability texts for each company type.
pub open spec fn peer_comparability_of(t: FinancialCompanyType) -> (Seq<char>, Seq<char>, Seq<
    char,
>) {
    match t {
        FinancialCompanyType::NbfcProjectFinance => (
            "high"@,
            "Direct peer comparability: High (PFC / IREDA / IRFC / HUDCO)"@,
            "Bank comparability: Low"@,
        ),
        FinancialCompanyType::Nbfc | FinancialCompanyType::HousingFinance => (
            "high"@,
            "Direct peer comparability: High (NBFC / HFC names)"@,
            "Bank comparability: Low"@,
        ),
        FinancialCompanyType::Bank => (
            "high"@,
            "Direct peer comparability: High (banks)"@,
            "Bank comparability: High"@,
        ),
        FinancialCompanyType::Industrial => ("medium"@, Seq::empty(), Seq::empty()),
        _ => ("medium"@, "Direct peer comparability: Medium"@, Seq::empty()),
    }
}

/// Peer-comparability level plus direct-peer and bank comparability notes.
pub fn peer_comparability_for(t: FinancialCompanyType) -> (r: (String, String, String))
    ensures
        (r.0@, r.1@, r.2@) == peer_comparability_of(t),
{
    match t {
        FinancialCompanyType::NbfcProjectFinance => (
            string_of("high"),
            string_of("Direct peer comparability: High (PFC / IREDA / IRFC / HUDCO)"),
            string_of("Bank comparability: Low"),
        ),
        FinancialCompanyType::Nbfc | FinancialCompanyType::HousingFinance => (
            string_of("high"),
            string_of("Direct peer comparability: High (NBFC / HFC names)"),
            string_of("Bank comparability: Low"),
        ),
        FinancialCompanyType::Bank => (
            string_of("high"),
            string_of("Direct peer comparability: High (banks)"),
            string_of("Bank comparability: High"),
        ),
        FinancialCompanyType::Industrial => (string_of("medium"), String::new(), String::new()),
        _ => (
            string_of("medium"),
            string_of("Direct peer comparability: Medium"),
            String::new(),
        ),
    }
}

/// The "Sector: … Industry: …" header of a sector outlook.
pub open spec fn outlook_header(sector: Option<Seq<char>>, industry: Option<Seq<char>>) -> Seq<
    char,
> {
    match (sector, industry) {
        (Some(s), Some(i)) if s.len() > 0 && i.len() > 0 => "Sector: "@ + s + ". Industry: "@ + i
            + ". "@,
        (Some(s), _) if s.len() > 0 => "Sector: "@ + s + ". "@,
        _ => Seq::empty(),
    }
}

/// The project-finance lender outlook text.
pub open spec fn project_finance_outlook() -> Seq<char> {
    "For project-finance NBFCs, the useful cycle is credit growth, power and infrastructure capex, government capex programmes, bond yields and the RBI rate path (cost of funds), power-sector asset quality and state-utility health, renewables financing demand, and competition from banks and the bond market. Porter scores from Yahoo margins are not used for this archetype."@
}

/// The generic lender outlook text.
pub open spec fn lender_outlook() -> Seq<char> {
    "For lenders, watch credit growth, NIM/spread, cost of funds, asset quality, capital, and the rate cycle — not industrial Porter analysis from Yahoo margins."@
}

/// The characters of an optional borrowed text, empty when missing.
pub open spec fn opt_str_text(o: Option<&str>) -> Seq<char> {
    match o {
        Some(s) => s@,
        None => Seq::empty(),
    }
}

/// The characters of an optional borrowed text.
pub open spec fn opt_str(o: Option<&str>) -> Option<Seq<char>> {
    match o {
        Some(s) => Some(s@),
        None => None,
    }
}

/// Lender sector outlook: optional sector/industry header, then the cycle to watch.
pub fn lender_sector_outlook(t: FinancialCompanyType, sector: Option<&str>, industry: Option<
    &str,
>) -> (r: String)
    ensures
        r@ == outlook_header(opt_str(sector), opt_str(industry)) + (
        if t == FinancialCompanyType::NbfcProjectFinance {
            project_finance_outlook()
        } else {
            lender_outlook()
        }),
{
    let mut out = String::new();
    match (sector, industry) {
        (Some(s), Some(i)) if !s.is_empty() && !i.is_empty() => {
            push_str(&mut out, "Sector: ");
            push_str(&mut out, s);
            push_str(&mut out, ". Industry: ");
            push_str(&mut out, i);
            push_str(&mut out, ". ");
        },
        (Some(s), _) if !s.is_empty() => {
            push_str(&mut out, "Sector: ");
            push_str(&mut out, s);
            push_str(&mut out, ". ");
        },
        _ => {},
    }
    if t == FinancialCompanyType::NbfcProjectFinance {
        push_str(
            &mut out,
            "For project-finance NBFCs, the useful cycle is credit growth, power and infrastructure capex, government capex programmes, bond yields and the RBI rate path (cost of funds), power-sector asset quality and state-utility health, renewables financing demand, and competition from banks and the bond market. Porter scores from Yahoo margins are not used for this archetype.",
        );
    } else {
        push_str(
            &mut out,
            "For lenders, watch credit growth, NIM/spread, cost of funds, asset quality, capital, and the rate cycle — not industrial Porter analysis from Yahoo margins.",
        );
    }
    out
}

} // verus!
