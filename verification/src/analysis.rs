//! Sector context of a research report: outlook text, headline summary and themes.

use vstd::prelude::*;

use crate::financial_company::{
    lender_outlook, lender_sector_outlook, lender_type, opt_str, outlook_header,
    project_finance_outlook,
};
use crate::models::{
    FinancialCompanyType, MonitorableItem, NewsItem, RiskBuckets, RiskCategory, RiskItem,
    ScenarioAnalysis,
};
use crate::text::{
    chars_of, contains_seq, contains_str, decimal, decimal_string, join_seqs, join_strings,
    lower_chars, push_str, string_of, string_views, trim, trim_str, unicode_lower,
};

verus! {

/// Headline keywords and the theme each one signals, in the order they are reported.
pub open spec fn theme_keywords() -> Seq<(Seq<char>, Seq<char>)> {
    seq![
        ("earnings"@, "earnings & results"@),
        ("guidance"@, "guidance"@),
        ("rbi"@, "rates / policy"@),
        ("acquisition"@, "M&A / deals"@),
        ("regulat"@, "regulation / policy risk"@),
        ("export"@, "exports & demand"@),
        ("inflation"@, "inflation & costs"@),
        ("volatil"@, "volatility & sentiment"@),
    ]
}

/// The themes whose keyword occurs in `joined`, in keyword order.
pub open spec fn theme_hits(joined: Seq<char>, kws: Seq<(Seq<char>, Seq<char>)>) -> Seq<Seq<char>>
    decreases kws.len(),
{
    if kws.len() == 0 {
        Seq::empty()
    } else {
        let rest = theme_hits(joined, kws.drop_last());
        if contains_seq(joined, kws.last().0) {
            rest.push(kws.last().1)
        } else {
            rest
        }
    }
}

/// One-line heuristic read on headline wording.
pub open spec fn headline_themes(titles: Seq<Seq<char>>) -> Seq<char> {
    if titles.len() == 0 {
        "No headlines to theme."@
    } else {
        let hits = theme_hits(unicode_lower(join_seqs(titles, " "@)), theme_keywords());
        if hits.len() == 0 {
            "Sector headlines present; no keyword themes matched in this pass."@
        } else {
            "Heuristic read on sample headlines: "@ + join_seqs(hits, ", "@) + "."@
        }
    }
}

/// One-line heuristic read on headline wording (provider data only, not investment advice).
pub fn sector_themes_from_titles(titles: &Vec<String>) -> (r: String)
    ensures
        r@ == headline_themes(string_views(titles@)),
{
    if titles.len() == 0 {
        return string_of("No headlines to theme.");
    }
    let joined_s = join_strings(titles, " ");
    let joined = lower_chars(chars_of(joined_s.as_str()).as_slice());
    let kws: Vec<(&str, &str)> = vec![
        ("earnings", "earnings & results"),
        ("guidance", "guidance"),
        ("rbi", "rates / policy"),
        ("acquisition", "M&A / deals"),
        ("regulat", "regulation / policy risk"),
        ("export", "exports & demand"),
        ("inflation", "inflation & costs"),
        ("volatil", "volatility & sentiment"),
    ];
    let ghost kv = kws@.map_values(|p: (&str, &str)| (p.0@, p.1@));
    assert(kv =~= theme_keywords());
    let mut hits: Vec<String> = Vec::new();
    let mut i: usize = 0;
    while i < kws.len()
        invariant
            i <= kws@.len(),
            kv == kws@.map_values(|p: (&str, &str)| (p.0@, p.1@)),
            string_views(hits@) == theme_hits(joined@, kv.take(i as int)),
        decreases kws.len() - i,
    {
        let (kw, label) = kws[i];
        assert(kv.take(i + 1).drop_last() =~= kv.take(i as int));
        assert(kv.take(i + 1).last() == (kw@, label@));
        if contains_str(joined.as_slice(), kw) {
            let ghost prev = hits@;
            hits.push(string_of(label));
            assert(string_views(hits@) =~= string_views(prev).push(label@));
        }
        i += 1;
    }
    assert(kv.take(kws@.len() as int) =~= kv);
    if hits.len() == 0 {
        string_of("Sector headlines present; no keyword themes matched in this pass.")
    } else {
        let mut s = string_of("Heuristic read on sample headlines: ");
        let j = join_strings(&hits, ", ");
        push_str(&mut s, j.as_str());
        push_str(&mut s, ".");
        s
    }
}

/// Sector metadata, headline summary and themes for a report (the cohort research
/// profile is attached separately).
#[derive(Debug)]
pub struct SectorAnalysisDetail {
    pub sector: Option<String>,
    pub industry: Option<String>,
    pub outlook_narrative: String,
    pub sector_news_summary: String,
    /// First few sector news titles for the UI.
    pub sample_headlines: Vec<String>,
    /// Heuristic one-line read on headline wording.
    pub sector_headline_themes: String,
}

/// The outlook narrative of a non-lender.
pub open spec fn industrial_outlook(sector: Option<Seq<char>>, industry: Option<Seq<char>>) -> Seq<
    char,
> {
    match (sector, industry) {
        (Some(s), Some(i)) if s.len() > 0 && i.len() > 0 => "Sector: "@ + s + ". Industry: "@ + i
            + ". Yahoo data only; treat as a starting point."@,
        (Some(s), _) if s.len() > 0 => "Sector: "@ + s + "."@,
        _ => "Sector metadata unavailable from data provider."@,
    }
}

/// The headline-count summary.
pub open spec fn news_summary(n: nat) -> Seq<char> {
    if n == 0 {
        "No sector headlines returned."@
    } else {
        decimal(n) + " headline(s) matched sector/industry topic search."@
    }
}

/// The titles of the first `n` headlines.
pub open spec fn first_titles(news: Seq<NewsItem>, n: int) -> Seq<Seq<char>> {
    news.take(if news.len() < n { news.len() as int } else { n }).map_values(|x: NewsItem| x.title@)
}

/// The view of a sector analysis.
pub open spec fn sector_detail_view(d: SectorAnalysisDetail) -> (
    Option<Seq<char>>,
    Option<Seq<char>>,
    Seq<char>,
    Seq<char>,
    Seq<Seq<char>>,
    Seq<char>,
) {
    (
        match d.sector {
            Some(s) => Some(s@),
            None => None,
        },
        match d.industry {
            Some(s) => Some(s@),
            None => None,
        },
        d.outlook_narrative@,
        d.sector_news_summary@,
        string_views(d.sample_headlines@),
        d.sector_headline_themes@,
    )
}

fn first_titles_exec(news: &[NewsItem], n: usize) -> (r: Vec<String>)
    ensures
        string_views(r@) == first_titles(news@, n as int),
{
    let m = if news.len() < n {
        news.len()
    } else {
        n
    };
    let ghost want = first_titles(news@, n as int);
    let mut out: Vec<String> = Vec::new();
    let mut i: usize = 0;
    while i < m
        invariant
            m <= news@.len(),
            m == (if news@.len() < n { news@.len() } else { n as nat }),
            i <= m,
            string_views(out@) == news@.take(i as int).map_values(|x: NewsItem| x.title@),
        decreases m - i,
    {
        let ghost prev = out@;
        out.push(string_of(news[i].title.as_str()));
        assert(string_views(out@) =~= string_views(prev).push(news@[i as int].title@));
        i += 1;
        assert(news@.take(i as int) =~= news@.take(i - 1).push(news@[i - 1]));
        assert(string_views(out@) =~= news@.take(i as int).map_values(|x: NewsItem| x.title@));
    }
    out
}

fn copy_opt(o: Option<&str>) -> (r: Option<String>)
    ensures
        match r {
            Some(s) => opt_str(o) == Some(s@),
            None => o is None,
        },
{
    match o {
        Some(s) => Some(string_of(s)),
        None => None,
    }
}

/// Sector outlook, headline summary and themes for the report of a company of type `company_type`.
pub fn compute_sector_analysis_for(
    sector: Option<&str>,
    industry: Option<&str>,
    sector_news: &[NewsItem],
    company_type: FinancialCompanyType,
) -> (r: SectorAnalysisDetail)
    ensures
        sector_detail_view(r) == (
            opt_str(sector),
            opt_str(industry),
            if lender_type(company_type) {
                outlook_header(opt_str(sector), opt_str(industry)) + (
                if company_type == FinancialCompanyType::NbfcProjectFinance {
                    project_finance_outlook()
                } else {
                    lender_outlook()
                })
            } else {
                industrial_outlook(opt_str(sector), opt_str(industry))
            },
            news_summary(sector_news@.len()),
            first_titles(sector_news@, 3),
            headline_themes(first_titles(sector_news@, 8)),
        ),
{
    let outlook_narrative = if company_type.is_lender() {
        lender_sector_outlook(company_type, sector, industry)
    } else {
        match (sector, industry) {
            (Some(s), Some(i)) if !s.is_empty() && !i.is_empty() => {
                let mut o = string_of("Sector: ");
                push_str(&mut o, s);
                push_str(&mut o, ". Industry: ");
                push_str(&mut o, i);
                push_str(&mut o, ". Yahoo data only; treat as a starting point.");
                o
            },
            (Some(s), _) if !s.is_empty() => {
                let mut o = string_of("Sector: ");
                push_str(&mut o, s);
                push_str(&mut o, ".");
                o
            },
            _ => string_of("Sector metadata unavailable from data provider."),
        }
    };
    let sector_news_summary = if sector_news.len() == 0 {
        string_of("No sector headlines returned.")
    } else {
        let mut s = decimal_string(sector_news.len() as u64);
        push_str(&mut s, " headline(s) matched sector/industry topic search.");
        s
    };
    let sample_headlines = first_titles_exec(sector_news, 3);
    let themes_titles = first_titles_exec(sector_news, 8);
    let sector_headline_themes = sector_themes_from_titles(&themes_titles);
    SectorAnalysisDetail {
        sector: copy_opt(sector),
        industry: copy_opt(industry),
        outlook_narrative,
        sector_news_summary,
        sample_headlines,
        sector_headline_themes,
    }
}

/// Sector outlook, headline summary and themes for an industrial company.
pub fn compute_sector_analysis(
    sector: Option<&str>,
    industry: Option<&str>,
    sector_news: &[NewsItem],
) -> (r: SectorAnalysisDetail)
    ensures
        sector_detail_view(r) == (
            opt_str(sector),
            opt_str(industry),
            industrial_outlook(opt_str(sector), opt_str(industry)),
            news_summary(sector_news@.len()),
            first_titles(sector_news@, 3),
            headline_themes(first_titles(sector_news@, 8)),
        ),
{
    compute_sector_analysis_for(sector, industry, sector_news, FinancialCompanyType::Industrial)
}

// ---------------------------------------------------------------------------
// Company-type texts of the structured research sections
// ---------------------------------------------------------------------------

/// Which narrative family a company type gets: banks, other lenders, or the rest.
pub open spec fn narrative_family(t: FinancialCompanyType) -> int {
    if t == FinancialCompanyType::Bank {
        0
    } else if lender_type(t) {
        1
    } else {
        2
    }
}

/// Base, upside, downside and capital-impairment texts for each narrative family.
pub open spec fn scenario_texts(t: FinancialCompanyType) -> (Seq<char>, Seq<char>, Seq<char>, Seq<char>) {
    if narrative_family(t) == 0 {
        (
            "Credit and deposit growth stay orderly; NIM and asset quality hold near recent run-rate."@,
            "Faster CASA/deposit traction, stable credit cost, and operating leverage can support P/B vs ROE."@,
            "Deposit slowdown vs credit, NIM compression, unsecured/retail stress, or capital consumption."@,
            "If capital or asset quality looks permanently impaired, avoid or cut size — do not treat missing GNPA as a clean book."@,
        )
    } else if narrative_family(t) == 1 {
        (
            "Loan book and PAT track power/infra capex; NIM holds if funding costs stay orderly."@,
            "Faster disbursements, stable asset quality, and cheaper funding can support P/B vs ROE."@,
            "Discom stress, NIM compression, credit-cost spike, or ALM/funding shock."@,
            "If capital or asset quality looks permanently impaired, avoid or cut size — do not treat missing GNPA as a clean book."@,
        )
    } else {
        (
            "Growth tracks management guidance; valuation stays near long-term average."@,
            "Faster revenue + margin expansion can drive operating leverage and re-rating."@,
            "Demand slowdown, margin compression, or policy headwinds can lower earnings and multiples."@,
            "If downside case suggests permanent capital impairment, avoid or reduce position size."@,
        )
    }
}

/// Scenario narratives for a company of type `company_type`.
pub fn scenario_analysis_for(company_type: FinancialCompanyType) -> (r: ScenarioAnalysis)
    ensures
        (r.base_case@, r.upside_case@, r.downside_case@, r.capital_impairment_guardrail@)
            == scenario_texts(company_type),
{
    if company_type.is_bank() {
        ScenarioAnalysis {
            base_case: string_of("Credit and deposit growth stay orderly; NIM and asset quality hold near recent run-rate."),
            upside_case: string_of("Faster CASA/deposit traction, stable credit cost, and operating leverage can support P/B vs ROE."),
            downside_case: string_of("Deposit slowdown vs credit, NIM compression, unsecured/retail stress, or capital consumption."),
            capital_impairment_guardrail: string_of("If capital or asset quality looks permanently impaired, avoid or cut size — do not treat missing GNPA as a clean book."),
        }
    } else if company_type.is_lender() {
        ScenarioAnalysis {
            base_case: string_of("Loan book and PAT track power/infra capex; NIM holds if funding costs stay orderly."),
            upside_case: string_of("Faster disbursements, stable asset quality, and cheaper funding can support P/B vs ROE."),
            downside_case: string_of("Discom stress, NIM compression, credit-cost spike, or ALM/funding shock."),
            capital_impairment_guardrail: string_of("If capital or asset quality looks permanently impaired, avoid or cut size — do not treat missing GNPA as a clean book."),
        }
    } else {
        ScenarioAnalysis {
            base_case: string_of("Growth tracks management guidance; valuation stays near long-term average."),
            upside_case: string_of("Faster revenue + margin expansion can drive operating leverage and re-rating."),
            downside_case: string_of("Demand slowdown, margin compression, or policy headwinds can lower earnings and multiples."),
            capital_impairment_guardrail: string_of("If downside case suggests permanent capital impairment, avoid or reduce position size."),
        }
    }
}

/// The growth triggers to watch for each narrative family.
pub open spec fn growth_trigger_texts(t: FinancialCompanyType) -> Seq<Seq<char>> {
    if narrative_family(t) == 0 {
        seq![
            "Credit growth vs deposit growth and LDR."@,
            "CASA and cost of deposits."@,
            "NIM trajectory."@,
            "GNPA / NNPA / credit cost from filings."@,
            "CET1 / CRAR vs regulatory floor."@,
            "P/B vs ROE after asset-quality check."@,
        ]
    } else if narrative_family(t) == 1 {
        seq![
            "Loan-book and disbursement growth vs guidance."@,
            "NIM / spread vs cost of funds."@,
            "GNPA / NNPA / credit cost from filings."@,
            "CRAR / Tier-I vs regulatory floor."@,
            "P/B vs ROE after asset-quality check."@,
        ]
    } else {
        seq![
            "Investigate new product/service ramps in filings (not confirmed from Yahoo)."@,
            "Investigate capacity expansion / utilization in investor presentations."@,
            "Investigate sector policy or demand-cycle comments in results."@,
        ]
    }
}

fn strings_of(items: &[&str]) -> (r: Vec<String>)
    ensures
        string_views(r@) == items@.map_values(|s: &str| s@),
{
    let mut out: Vec<String> = Vec::new();
    let mut i: usize = 0;
    while i < items.len()
        invariant
            i <= items@.len(),
            string_views(out@) == items@.take(i as int).map_values(|s: &str| s@),
        decreases items.len() - i,
    {
        let ghost prev = out@;
        out.push(string_of(items[i]));
        assert(string_views(out@) =~= string_views(prev).push(items@[i as int]@));
        i += 1;
        assert(items@.take(i as int) =~= items@.take(i - 1).push(items@[i - 1]));
        assert(string_views(out@) =~= items@.take(i as int).map_values(|s: &str| s@));
    }
    assert(items@.take(items@.len() as int) =~= items@);
    out
}

/// Growth triggers to watch for a company of type `company_type`.
pub fn growth_triggers_for(company_type: FinancialCompanyType) -> (r: Vec<String>)
    ensures
        string_views(r@) == growth_trigger_texts(company_type),
{
    let items: Vec<&str> = if company_type.is_bank() {
        vec![
            "Credit growth vs deposit growth and LDR.",
            "CASA and cost of deposits.",
            "NIM trajectory.",
            "GNPA / NNPA / credit cost from filings.",
            "CET1 / CRAR vs regulatory floor.",
            "P/B vs ROE after asset-quality check.",
        ]
    } else if company_type.is_lender() {
        vec![
            "Loan-book and disbursement growth vs guidance.",
            "NIM / spread vs cost of funds.",
            "GNPA / NNPA / credit cost from filings.",
            "CRAR / Tier-I vs regulatory floor.",
            "P/B vs ROE after asset-quality check.",
        ]
    } else {
        vec![
            "Investigate new product/service ramps in filings (not confirmed from Yahoo).",
            "Investigate capacity expansion / utilization in investor presentations.",
            "Investigate sector policy or demand-cycle comments in results.",
        ]
    };
    let r = strings_of(items.as_slice());
    assert(items@.map_values(|s: &str| s@) =~= growth_trigger_texts(company_type));
    r
}

/// The business-model text: banks, project-finance NBFCs, other lenders, the rest.
pub open spec fn business_model_text(t: FinancialCompanyType) -> Seq<char> {
    if t == FinancialCompanyType::Bank {
        "Universal commercial bank with retail, corporate and wholesale lending, a deposit franchise, payments/cards, treasury and fee businesses. Key economics are deposit franchise, credit growth, NIM, asset quality, fee income, operating efficiency and capital — not industrial volume/capex."@
    } else if t == FinancialCompanyType::NbfcProjectFinance {
        "Project-finance / credit book: disbursements, borrowing mix, spreads, and sector concentration — not industrial volume/capex."@
    } else if lender_type(t) {
        "NBFC credit book: disbursements, borrowing mix, spreads, and asset quality — not industrial volume/capex."@
    } else {
        "Review revenue drivers, customer mix, pricing power, and reinvestment discipline."@
    }
}

/// The business-model text of the research sections.
pub fn business_model_for(company_type: FinancialCompanyType) -> (r: String)
    ensures
        r@ == business_model_text(company_type),
{
    if company_type.is_bank() {
        string_of("Universal commercial bank with retail, corporate and wholesale lending, a deposit franchise, payments/cards, treasury and fee businesses. Key economics are deposit franchise, credit growth, NIM, asset quality, fee income, operating efficiency and capital — not industrial volume/capex.")
    } else if company_type == FinancialCompanyType::NbfcProjectFinance {
        string_of("Project-finance / credit book: disbursements, borrowing mix, spreads, and sector concentration — not industrial volume/capex.")
    } else if company_type.is_lender() {
        string_of("NBFC credit book: disbursements, borrowing mix, spreads, and asset quality — not industrial volume/capex.")
    } else {
        string_of("Review revenue drivers, customer mix, pricing power, and reinvestment discipline.")
    }
}

/// The competitive-advantage and entry/exit texts for each narrative family.
pub open spec fn advantage_and_entry_texts(t: FinancialCompanyType) -> (Seq<char>, Seq<char>) {
    if narrative_family(t) == 0 {
        (
            "Assess low-cost deposit / CASA franchise, customer base, distribution and digital/payments ecosystem, underwriting, cross-sell, operating efficiency, brand, funding cost and scale."@,
            "Do not rank on a gated Yahoo-only score. Prefer filings for GNPA, CRAR/CET1, NIM, CASA and deposit vs credit growth before size."@,
        )
    } else if narrative_family(t) == 1 {
        (
            "Assess cost of funds, government/policy franchise, underwriting, and access to bond markets."@,
            "Do not rank on a gated Yahoo-only score. Prefer filings for GNPA, CRAR, and NIM before size."@,
        )
    } else {
        (
            "Assess moat via switching costs, brand strength, cost edge, and execution consistency."@,
            "Prefer staggered entries when valuation offers margin of safety; trim when thesis breaks or valuation materially outruns growth."@,
        )
    }
}

/// Competitive-advantage prompt and entry/exit strategy for a company type.
pub fn advantage_and_entry_for(company_type: FinancialCompanyType) -> (r: (String, String))
    ensures
        (r.0@, r.1@) == advantage_and_entry_texts(company_type),
{
    if company_type.is_bank() {
        (
            string_of("Assess low-cost deposit / CASA franchise, customer base, distribution and digital/payments ecosystem, underwriting, cross-sell, operating efficiency, brand, funding cost and scale."),
            string_of("Do not rank on a gated Yahoo-only score. Prefer filings for GNPA, CRAR/CET1, NIM, CASA and deposit vs credit growth before size."),
        )
    } else if company_type.is_lender() {
        (
            string_of("Assess cost of funds, government/policy franchise, underwriting, and access to bond markets."),
            string_of("Do not rank on a gated Yahoo-only score. Prefer filings for GNPA, CRAR, and NIM before size."),
        )
    } else {
        (
            string_of("Assess moat via switching costs, brand strength, cost edge, and execution consistency."),
            string_of("Prefer staggered entries when valuation offers margin of safety; trim when thesis breaks or valuation materially outruns growth."),
        )
    }
}

/// A present text, or `N/A`.
pub open spec fn or_na(o: Option<Seq<char>>) -> Seq<char> {
    match o {
        Some(s) => s,
        None => "N/A"@,
    }
}

/// `Company (SYMBOL) operates in Sector / Industry.`, the company being its long name
/// when known.
pub open spec fn overview_line(
    symbol: Seq<char>,
    long_name: Option<Seq<char>>,
    sector: Option<Seq<char>>,
    industry: Option<Seq<char>>,
) -> Seq<char> {
    let company = match long_name {
        Some(n) => n,
        None => symbol,
    };
    company + " ("@ + symbol + ") operates in "@ + or_na(sector) + " / "@ + or_na(industry) + "."@
}

/// The company-overview line of the research sections.
pub fn company_overview_line(
    symbol: &str,
    long_name: Option<&str>,
    sector: Option<&str>,
    industry: Option<&str>,
) -> (r: String)
    ensures
        r@ == overview_line(symbol@, opt_str(long_name), opt_str(sector), opt_str(industry)),
{
    let mut out = match long_name {
        Some(n) => string_of(n),
        None => string_of(symbol),
    };
    push_str(&mut out, " (");
    push_str(&mut out, symbol);
    push_str(&mut out, ") operates in ");
    match sector {
        Some(s) => push_str(&mut out, s),
        None => push_str(&mut out, "N/A"),
    }
    push_str(&mut out, " / ");
    match industry {
        Some(i) => push_str(&mut out, i),
        None => push_str(&mut out, "N/A"),
    }
    push_str(&mut out, ".");
    out
}

// ---------------------------------------------------------------------------
// Key monitorables
// ---------------------------------------------------------------------------

/// What the monitorables read of the company's figures, as plain facts.
pub struct MonitorableSignals {
    /// Price-to-book is positive and return on equity is reported.
    pub pb_and_roe_known: bool,
    /// Return on equity is reported.
    pub roe_known: bool,
    /// Revenue growth is reported and positive.
    pub revenue_growing: bool,
    /// Profit margin above 10%.
    pub healthy_margin: bool,
    /// Debt to equity: unknown, comfortable (below 0.70) or elevated.
    pub debt_comfortable: Option<bool>,
    /// Cash conversion: operating cash flow unknown, at least net income (with positive
    /// net income), or otherwise.
    pub cash_strong: Option<bool>,
}

/// Status of the P/B-versus-ROE line.
pub open spec fn pb_status(sig: MonitorableSignals) -> Seq<char> {
    if sig.pb_and_roe_known {
        "Reassess each result"@
    } else {
        "P/B or ROE missing"@
    }
}

/// Status of the bank ROA/ROE line.
pub open spec fn roe_status(sig: MonitorableSignals) -> Seq<char> {
    if sig.roe_known {
        "Yahoo ROE/ROA present"@
    } else {
        "Partial / missing"@
    }
}

/// Status of the revenue line.
pub open spec fn revenue_status(sig: MonitorableSignals) -> Seq<char> {
    if sig.revenue_growing {
        "On track"@
    } else {
        "Watch"@
    }
}

/// Status of the margin line.
pub open spec fn margin_status(sig: MonitorableSignals) -> Seq<char> {
    if sig.healthy_margin {
        "Healthy"@
    } else {
        "Watch"@
    }
}

/// Status of the debt line.
pub open spec fn debt_status(sig: MonitorableSignals) -> Seq<char> {
    match sig.debt_comfortable {
        Some(true) => "Comfortable"@,
        Some(false) => "Elevated"@,
        None => "Unknown"@,
    }
}

/// Status of the cash-flow line.
pub open spec fn cash_status(sig: MonitorableSignals) -> Seq<char> {
    match sig.cash_strong {
        Some(true) => "Strong"@,
        Some(false) => "Watch"@,
        None => "Unknown"@,
    }
}

/// The monitorables (area, what to track, status) for each narrative family.
pub open spec fn monitorables_of(t: FinancialCompanyType, sig: MonitorableSignals) -> Seq<
    (Seq<char>, Seq<char>, Seq<char>),
> {
    if narrative_family(t) == 0 {
        seq![
            ("Credit growth"@, "Advances / loan growth vs guidance"@, "Track via filings"@),
            ("Deposit growth"@, "Total deposits YoY"@, "N/A in Yahoo"@),
            ("Deposit vs credit gap"@, "Deposit growth minus credit growth"@, "N/A in Yahoo"@),
            ("CASA ratio"@, "Current + savings as % of deposits"@, "N/A in Yahoo"@),
            ("NIM"@, "Net interest margin vs cost of deposits"@, "N/A in Yahoo"@),
            ("Cost of deposits"@, "Blended deposit cost and term mix"@, "Track filings"@),
            ("LCR"@, "Liquidity coverage ratio"@, "N/A in Yahoo"@),
            ("GNPA / NNPA"@, "Stage 3, slippages, PCR"@, "N/A in Yahoo"@),
            ("Credit cost"@, "Provisions / average advances"@, "N/A in Yahoo"@),
            ("ROA / ROE"@, "Sustainable profitability vs P/B"@, roe_status(sig)),
            ("CET1 / CRAR"@, "Capital vs RBI floor and peer banks"@, "N/A in Yahoo"@),
            ("Loan / deposit ratio"@, "LDR and wholesale funding reliance"@, "Track filings"@),
            ("Retail / corporate mix"@, "Loan-book mix and unsecured share"@, "Track filings"@),
            ("P/B vs ROE"@, "Multiple vs sustainable ROE and asset quality"@, pb_status(sig)),
        ]
    } else if narrative_family(t) == 1 {
        seq![
            ("Loan book growth"@, "AUM / advances vs prior year"@, "Track via filings"@),
            ("Disbursements"@, "Quarterly sanctions and disbursements"@, "Track via filings"@),
            ("NIM / spread"@, "NIM and yield minus cost of funds"@, "N/A in Yahoo"@),
            ("Cost of funds"@, "Bond yields, bank lines, incremental COF"@, "Track RBI / bond market"@),
            ("GNPA / NNPA"@, "Stage 3, slippages, PCR"@, "N/A in Yahoo"@),
            ("Credit cost"@, "Provisions / average advances"@, "N/A in Yahoo"@),
            ("CRAR / Tier-I"@, "Capital vs RBI floor"@, "N/A in Yahoo"@),
            ("Borrowing mix"@, "Bonds vs bank vs CP"@, "Track presentations"@),
            ("ALM"@, "Duration gap and refinance calendar"@, "Track filings"@),
            ("Sector concentration"@, "Power / infra / RE / state exposure"@, "Track filings"@),
            ("P/B vs ROE"@, "Multiple vs sustainable ROE and asset quality"@, pb_status(sig)),
        ]
    } else {
        seq![
            ("Revenue"@, "Growth vs expectation"@, revenue_status(sig)),
            ("Margin"@, "Expansion or contraction"@, margin_status(sig)),
            ("Volume"@, "User/customer/order growth"@, "Track via quarterly disclosures"@),
            ("Market share"@, "Gaining or losing"@, "Track with industry data"@),
            ("Debt"@, "Increasing or reducing"@, debt_status(sig)),
            ("Cash flow"@, "CFO/PAT ratio"@, cash_status(sig)),
            ("Capex"@, "On time or delayed"@, "Track management commentary"@),
            ("Management guidance"@, "Upgraded or downgraded"@, "Track each quarter"@),
            ("Valuation"@, "P/E, EV/EBITDA vs growth"@, "Reassess on each result"@),
            ("Regulation"@, "Any adverse policy change"@, "Track sector circulars"@),
        ]
    }
}

fn pb_status_exec(sig: &MonitorableSignals) -> (r: String)
    ensures
        r@ == pb_status(*sig),
{
    if sig.pb_and_roe_known {
        string_of("Reassess each result")
    } else {
        string_of("P/B or ROE missing")
    }
}

fn roe_status_exec(sig: &MonitorableSignals) -> (r: String)
    ensures
        r@ == roe_status(*sig),
{
    if sig.roe_known {
        string_of("Yahoo ROE/ROA present")
    } else {
        string_of("Partial / missing")
    }
}

fn revenue_status_exec(sig: &MonitorableSignals) -> (r: String)
    ensures
        r@ == revenue_status(*sig),
{
    if sig.revenue_growing {
        string_of("On track")
    } else {
        string_of("Watch")
    }
}

fn margin_status_exec(sig: &MonitorableSignals) -> (r: String)
    ensures
        r@ == margin_status(*sig),
{
    if sig.healthy_margin {
        string_of("Healthy")
    } else {
        string_of("Watch")
    }
}

fn debt_status_exec(sig: &MonitorableSignals) -> (r: String)
    ensures
        r@ == debt_status(*sig),
{
    match sig.debt_comfortable {
        Some(true) => string_of("Comfortable"),
        Some(false) => string_of("Elevated"),
        None => string_of("Unknown"),
    }
}

fn cash_status_exec(sig: &MonitorableSignals) -> (r: String)
    ensures
        r@ == cash_status(*sig),
{
    match sig.cash_strong {
        Some(true) => string_of("Strong"),
        Some(false) => string_of("Watch"),
        None => string_of("Unknown"),
    }
}

fn item(area: &str, what: &str, status: String) -> (r: MonitorableItem)
    ensures
        r.area@ == area@,
        r.what_to_track@ == what@,
        r.status == status,
{
    MonitorableItem { area: string_of(area), what_to_track: string_of(what), status }
}

/// The view of a list of monitorables.
pub open spec fn monitorable_views(v: Seq<MonitorableItem>) -> Seq<(Seq<char>, Seq<char>, Seq<char>)> {
    v.map_values(|m: MonitorableItem| (m.area@, m.what_to_track@, m.status@))
}

/// Key monitorables for a company of type `company_type`: funding, margins, asset
/// quality and capital for banks and other lenders; growth, margins, debt and cash
/// conversion for the rest.
pub fn build_monitorables(sig: &MonitorableSignals, company_type: FinancialCompanyType) -> (r: Vec<
    MonitorableItem,
>)
    ensures
        monitorable_views(r@) == monitorables_of(company_type, *sig),
{
    if company_type.is_bank() {
        let r = vec![
            item("Credit growth", "Advances / loan growth vs guidance", string_of("Track via filings")),
            item("Deposit growth", "Total deposits YoY", string_of("N/A in Yahoo")),
            item("Deposit vs credit gap", "Deposit growth minus credit growth", string_of("N/A in Yahoo")),
            item("CASA ratio", "Current + savings as % of deposits", string_of("N/A in Yahoo")),
            item("NIM", "Net interest margin vs cost of deposits", string_of("N/A in Yahoo")),
            item("Cost of deposits", "Blended deposit cost and term mix", string_of("Track filings")),
            item("LCR", "Liquidity coverage ratio", string_of("N/A in Yahoo")),
            item("GNPA / NNPA", "Stage 3, slippages, PCR", string_of("N/A in Yahoo")),
            item("Credit cost", "Provisions / average advances", string_of("N/A in Yahoo")),
            item("ROA / ROE", "Sustainable profitability vs P/B", roe_status_exec(sig)),
            item("CET1 / CRAR", "Capital vs RBI floor and peer banks", string_of("N/A in Yahoo")),
            item("Loan / deposit ratio", "LDR and wholesale funding reliance", string_of("Track filings")),
            item("Retail / corporate mix", "Loan-book mix and unsecured share", string_of("Track filings")),
            item("P/B vs ROE", "Multiple vs sustainable ROE and asset quality", pb_status_exec(sig)),
        ];
        assert(monitorable_views(r@) =~= monitorables_of(company_type, *sig));
        return r;
    }
    if company_type.is_lender() {
        let r = vec![
            item("Loan book growth", "AUM / advances vs prior year", string_of("Track via filings")),
            item("Disbursements", "Quarterly sanctions and disbursements", string_of("Track via filings")),
            item("NIM / spread", "NIM and yield minus cost of funds", string_of("N/A in Yahoo")),
            item("Cost of funds", "Bond yields, bank lines, incremental COF", string_of("Track RBI / bond market")),
            item("GNPA / NNPA", "Stage 3, slippages, PCR", string_of("N/A in Yahoo")),
            item("Credit cost", "Provisions / average advances", string_of("N/A in Yahoo")),
            item("CRAR / Tier-I", "Capital vs RBI floor", string_of("N/A in Yahoo")),
            item("Borrowing mix", "Bonds vs bank vs CP", string_of("Track presentations")),
            item("ALM", "Duration gap and refinance calendar", string_of("Track filings")),
            item("Sector concentration", "Power / infra / RE / state exposure", string_of("Track filings")),
            item("P/B vs ROE", "Multiple vs sustainable ROE and asset quality", pb_status_exec(sig)),
        ];
        assert(monitorable_views(r@) =~= monitorables_of(company_type, *sig));
        return r;
    }
    let r = vec![
        item("Revenue", "Growth vs expectation", revenue_status_exec(sig)),
        item("Margin", "Expansion or contraction", margin_status_exec(sig)),
        item("Volume", "User/customer/order growth", string_of("Track via quarterly disclosures")),
        item("Market share", "Gaining or losing", string_of("Track with industry data")),
        item("Debt", "Increasing or reducing", debt_status_exec(sig)),
        item("Cash flow", "CFO/PAT ratio", cash_status_exec(sig)),
        item("Capex", "On time or delayed", string_of("Track management commentary")),
        item("Management guidance", "Upgraded or downgraded", string_of("Track each quarter")),
        item("Valuation", "P/E, EV/EBITDA vs growth", string_of("Reassess on each result")),
        item("Regulation", "Any adverse policy change", string_of("Track sector circulars")),
    ];
    assert(monitorable_views(r@) =~= monitorables_of(company_type, *sig));
    r
}

// ---------------------------------------------------------------------------
// Lender risk buckets
// ---------------------------------------------------------------------------

/// The view of a risk: category, risk, severity and note.
pub open spec fn risk_view(r: RiskItem) -> (RiskCategory, Seq<char>, Seq<char>, Seq<char>) {
    (r.category, r.risk@, r.severity@, r.note@)
}

/// The views of a list of risks.
pub open spec fn risk_views(v: Seq<RiskItem>) -> Seq<(RiskCategory, Seq<char>, Seq<char>, Seq<char>)> {
    v.map_values(|r: RiskItem| risk_view(r))
}

/// The five buckets of risks, as views.
pub open spec fn buckets_view(b: RiskBuckets) -> Seq<Seq<(RiskCategory, Seq<char>, Seq<char>, Seq<char>)>> {
    seq![
        risk_views(b.business_risks@),
        risk_views(b.financial_risks@),
        risk_views(b.management_risks@),
        risk_views(b.valuation_risks@),
        risk_views(b.regulatory_risks@),
    ]
}

/// A list with one more risk when `add` holds.
pub open spec fn with_if(
    base: Seq<(RiskCategory, Seq<char>, Seq<char>, Seq<char>)>,
    add: bool,
    extra: (RiskCategory, Seq<char>, Seq<char>, Seq<char>),
) -> Seq<(RiskCategory, Seq<char>, Seq<char>, Seq<char>)> {
    if add {
        base.push(extra)
    } else {
        base
    }
}

/// The promoter-pledge risk.
pub open spec fn pledge_risk() -> (RiskCategory, Seq<char>, Seq<char>, Seq<char>) {
    (RiskCategory::Management, "Pledge"@, "High"@, "Promoter pledge reported; monitor trend."@)
}

/// Risk buckets of a bank; the pledge risk when a promoter pledge is reported, and the
/// rich-P/E risk when P/E is above 20.
pub open spec fn bank_risk_buckets(pledged: bool, rich_pe: bool) -> Seq<
    Seq<(RiskCategory, Seq<char>, Seq<char>, Seq<char>)>,
> {
    seq![
        seq![
            (RiskCategory::Business, "Credit cycle / unsecured retail"@, "High"@, "Unsecured and SME mix vs secured retail/corporate."@),
            (RiskCategory::Business, "Deposit competition"@, "High"@, "Term-deposit pricing and CASA share vs peers."@),
            (RiskCategory::Business, "Wholesale / corporate concentration"@, "Medium"@, "Large-ticket corporate and group exposures."@),
        ],
        seq![
            (RiskCategory::Financial, "NIM compression"@, "High"@, "Loan yields vs cost of deposits; verify NIM in filings."@),
            (RiskCategory::Financial, "Credit-cost spike"@, "High"@, "GNPA/NNPA, slippages, and credit cost — usually missing from Yahoo."@),
            (RiskCategory::Financial, "Liquidity / LDR"@, "High"@, "Loan/deposit ratio, LCR, and wholesale funding."@),
            (RiskCategory::Financial, "Regulatory capital changes"@, "Medium"@, "CET1 / CRAR vs RBI Basel and D-SIB buffers."@),
        ],
        with_if(seq![
            (RiskCategory::Management, "Credit underwriting and collections"@, "Medium"@, "Retail unsecured and SME books can move credit cost quickly."@),
            (RiskCategory::Management, "Deposit franchise execution"@, "Medium"@, "CASA, term mix, and LDR vs wholesale funding."@),
        ], pledged, pledge_risk()),
        with_if(
            seq![
                (RiskCategory::Valuation, "P/B vs ROE de-rating"@, "Medium"@, "Bank multiples compress if ROE or asset quality slips."@),
            ],
            rich_pe,
            (RiskCategory::Valuation, "Rich P/E for a bank"@, "Medium"@, "High P/E is secondary to P/B–ROE and asset quality."@),
        ),
        seq![
            (RiskCategory::Regulatory, "RBI banking regulation"@, "Medium"@, "Capital, LCR, provisioning, and digital lending rules."@),
        ],
    ]
}

/// Risk buckets of a non-bank lender (project-finance NBFCs name power and discom
/// exposure and add renewables underwriting).
pub open spec fn nbfc_risk_buckets(project: bool, pledged: bool, rich_pe: bool) -> Seq<
    Seq<(RiskCategory, Seq<char>, Seq<char>, Seq<char>)>,
> {
    let first = if project {
        (RiskCategory::Business, "Power-sector concentration"@, "High"@, "Track borrower mix vs power, infrastructure, and other books in filings."@)
    } else {
        (RiskCategory::Business, "Sector concentration"@, "High"@, "Track borrower mix vs power, infrastructure, and other books in filings."@)
    };
    let second = if project {
        (RiskCategory::Business, "State-discom counterparty risk"@, "High"@, "State utility health and payment delays drive slippages for project financiers."@)
    } else {
        (RiskCategory::Business, "Public-sector / utility counterparty risk"@, "High"@, "State utility health and payment delays drive slippages for project financiers."@)
    };
    seq![
        with_if(
            seq![first, second] + seq![
                (RiskCategory::Business, "Private-sector credit risk"@, "Medium"@, "Private borrower mix and large-project underwriting can move credit cost."@),
                (RiskCategory::Business, "Large-project concentration"@, "Medium"@, "Single-name / project exposures vs book size."@),
            ],
            project,
            (RiskCategory::Business, "Renewables underwriting risk"@, "Medium"@, "Tariff, offtake, and execution risk on RE exposures."@),
        ),
        seq![
            (RiskCategory::Financial, "Funding-cost increase"@, "High"@, "Bond yields and borrowing mix vs loan yields."@),
            (RiskCategory::Financial, "NIM compression"@, "High"@, "Spread vs cost of funds; verify NIM in filings."@),
            (RiskCategory::Financial, "ALM mismatch"@, "High"@, "Asset-liability duration and refinance risk."@),
            (RiskCategory::Financial, "Credit-cost spike"@, "High"@, "GNPA/NNPA, Stage 3, and credit cost — usually missing from Yahoo."@),
            (RiskCategory::Financial, "Regulatory capital changes"@, "Medium"@, "CRAR / Tier-I vs RBI NBFC rules."@),
        ],
        with_if(seq![
            (RiskCategory::Management, "Government ownership / policy direction"@, "Medium"@, "SOE lenders can reprice or redirect books with policy."@),
            (RiskCategory::Management, "Borrowing-mix / ALM execution"@, "Medium"@, "Bank lines vs bonds vs CP; refinancing calendar."@),
        ], pledged, pledge_risk()),
        with_if(
            seq![
                (RiskCategory::Valuation, "P/B vs ROE de-rating"@, "Medium"@, "Lender multiples compress if ROE or asset quality slips."@),
            ],
            rich_pe,
            (RiskCategory::Valuation, "Rich P/E for a lender"@, "Medium"@, "High P/E is secondary to P/B–ROE for NBFCs."@),
        ),
        seq![
            (RiskCategory::Regulatory, "RBI / scale-based NBFC rules"@, "Medium"@, "Capital, provisioning, and liquidity norms."@),
            (RiskCategory::Regulatory, "Sector policy (power / infra)"@, "Medium"@, "Discom reforms, RE policy, and government capex."@),
        ],
    ]
}

fn risk(category: RiskCategory, name: &str, severity: &str, note: &str) -> (r: RiskItem)
    ensures
        risk_view(r) == (category, name@, severity@, note@),
{
    RiskItem { category, risk: string_of(name), severity: string_of(severity), note: string_of(note) }
}

fn push_risk_if(v: &mut Vec<RiskItem>, add: bool, r: RiskItem)
    ensures
        risk_views(final(v)@) == with_if(risk_views(old(v)@), add, risk_view(r)),
{
    if add {
        v.push(r);
        assert(risk_views(v@) =~= risk_views(old(v)@).push(risk_view(r)));
    }
}

/// Risk buckets of a lender. `pledged` tells whether a promoter pledge is reported,
/// `rich_pe` whether P/E is above 20.
pub fn lender_risks(company_type: FinancialCompanyType, pledged: bool, rich_pe: bool) -> (r:
    RiskBuckets)
    ensures
        buckets_view(r) == if company_type == FinancialCompanyType::Bank {
            bank_risk_buckets(pledged, rich_pe)
        } else {
            nbfc_risk_buckets(company_type == FinancialCompanyType::NbfcProjectFinance, pledged, rich_pe)
        },
{
    if company_type.is_bank() {
        let mut management_risks = vec![
            risk(RiskCategory::Management, "Credit underwriting and collections", "Medium", "Retail unsecured and SME books can move credit cost quickly."),
            risk(RiskCategory::Management, "Deposit franchise execution", "Medium", "CASA, term mix, and LDR vs wholesale funding."),
        ];
        push_risk_if(&mut management_risks, pledged, risk(RiskCategory::Management, "Pledge", "High", "Promoter pledge reported; monitor trend."));
        let mut valuation_risks = vec![
            risk(RiskCategory::Valuation, "P/B vs ROE de-rating", "Medium", "Bank multiples compress if ROE or asset quality slips."),
        ];
        push_risk_if(&mut valuation_risks, rich_pe, risk(RiskCategory::Valuation, "Rich P/E for a bank", "Medium", "High P/E is secondary to P/B–ROE and asset quality."));
        let r = RiskBuckets {
            business_risks: vec![
                risk(RiskCategory::Business, "Credit cycle / unsecured retail", "High", "Unsecured and SME mix vs secured retail/corporate."),
                risk(RiskCategory::Business, "Deposit competition", "High", "Term-deposit pricing and CASA share vs peers."),
                risk(RiskCategory::Business, "Wholesale / corporate concentration", "Medium", "Large-ticket corporate and group exposures."),
            ],
            financial_risks: vec![
                risk(RiskCategory::Financial, "NIM compression", "High", "Loan yields vs cost of deposits; verify NIM in filings."),
                risk(RiskCategory::Financial, "Credit-cost spike", "High", "GNPA/NNPA, slippages, and credit cost — usually missing from Yahoo."),
                risk(RiskCategory::Financial, "Liquidity / LDR", "High", "Loan/deposit ratio, LCR, and wholesale funding."),
                risk(RiskCategory::Financial, "Regulatory capital changes", "Medium", "CET1 / CRAR vs RBI Basel and D-SIB buffers."),
            ],
            management_risks,
            valuation_risks,
            regulatory_risks: vec![
                risk(RiskCategory::Regulatory, "RBI banking regulation", "Medium", "Capital, LCR, provisioning, and digital lending rules."),
            ],
        };
        assert(buckets_view(r) =~~= bank_risk_buckets(pledged, rich_pe));
        return r;
    }
    let project = company_type == FinancialCompanyType::NbfcProjectFinance;
    let mut business_risks = vec![
        risk(
            RiskCategory::Business,
            if project { "Power-sector concentration" } else { "Sector concentration" },
            "High",
            "Track borrower mix vs power, infrastructure, and other books in filings.",
        ),
        risk(
            RiskCategory::Business,
            if project { "State-discom counterparty risk" } else { "Public-sector / utility counterparty risk" },
            "High",
            "State utility health and payment delays drive slippages for project financiers.",
        ),
        risk(RiskCategory::Business, "Private-sector credit risk", "Medium", "Private borrower mix and large-project underwriting can move credit cost."),
        risk(RiskCategory::Business, "Large-project concentration", "Medium", "Single-name / project exposures vs book size."),
    ];
    push_risk_if(&mut business_risks, project, risk(RiskCategory::Business, "Renewables underwriting risk", "Medium", "Tariff, offtake, and execution risk on RE exposures."));
    let financial_risks = vec![
        risk(RiskCategory::Financial, "Funding-cost increase", "High", "Bond yields and borrowing mix vs loan yields."),
        risk(RiskCategory::Financial, "NIM compression", "High", "Spread vs cost of funds; verify NIM in filings."),
        risk(RiskCategory::Financial, "ALM mismatch", "High", "Asset-liability duration and refinance risk."),
        risk(RiskCategory::Financial, "Credit-cost spike", "High", "GNPA/NNPA, Stage 3, and credit cost — usually missing from Yahoo."),
        risk(RiskCategory::Financial, "Regulatory capital changes", "Medium", "CRAR / Tier-I vs RBI NBFC rules."),
    ];
    let mut management_risks = vec![
        risk(RiskCategory::Management, "Government ownership / policy direction", "Medium", "SOE lenders can reprice or redirect books with policy."),
        risk(RiskCategory::Management, "Borrowing-mix / ALM execution", "Medium", "Bank lines vs bonds vs CP; refinancing calendar."),
    ];
    push_risk_if(&mut management_risks, pledged, risk(RiskCategory::Management, "Pledge", "High", "Promoter pledge reported; monitor trend."));
    let mut valuation_risks = vec![
        risk(RiskCategory::Valuation, "P/B vs ROE de-rating", "Medium", "Lender multiples compress if ROE or asset quality slips."),
    ];
    push_risk_if(&mut valuation_risks, rich_pe, risk(RiskCategory::Valuation, "Rich P/E for a lender", "Medium", "High P/E is secondary to P/B–ROE for NBFCs."));
    let regulatory_risks = vec![
        risk(RiskCategory::Regulatory, "RBI / scale-based NBFC rules", "Medium", "Capital, provisioning, and liquidity norms."),
        risk(RiskCategory::Regulatory, "Sector policy (power / infra)", "Medium", "Discom reforms, RE policy, and government capex."),
    ];
    let r = RiskBuckets {
        business_risks,
        financial_risks,
        management_risks,
        valuation_risks,
        regulatory_risks,
    };
    assert(buckets_view(r) =~~= nbfc_risk_buckets(project, pledged, rich_pe));
    r
}

// ---------------------------------------------------------------------------
// Tone of the business summary
// ---------------------------------------------------------------------------

/// Words that read as positive in a business summary.
pub open spec fn positive_words() -> Seq<Seq<char>> {
    seq!["growth"@, "leading"@, "strong"@, "expand"@, "opportunity"@, "innovation"@, "diverse"@, "robust"@, "improve"@, "profit"@, "customer"@, "sustainable"@]
}

/// Words that read as negative in a business summary.
pub open spec fn negative_words() -> Seq<Seq<char>> {
    seq!["risk"@, "decline"@, "challenge"@, "uncertain"@, "litigation"@, "debt"@, "loss"@, "weak"@, "competition"@, "volatile"@, "adverse"@]
}

/// How many of `words` occur in `text`.
pub open spec fn words_present(text: Seq<char>, words: Seq<Seq<char>>) -> int
    decreases words.len(),
{
    if words.len() == 0 {
        0
    } else {
        words_present(text, words.drop_last()) + if contains_seq(text, words.last()) {
            1int
        } else {
            0int
        }
    }
}

/// `v` clamped to `0..=100`.
pub open spec fn clamp_score(v: int) -> int {
    if v < 0 {
        0
    } else if v > 100 {
        100
    } else {
        v
    }
}

/// The tone score and label of a business summary: 50, plus 3 per positive word and
/// minus 3 per negative word present (lower-cased), kept within 0–100; 62 and above
/// reads cautiously positive, 38 and below cautiously negative.
pub open spec fn tone_of(text: Option<Seq<char>>) -> (int, Seq<char>) {
    match text {
        Some(t) if t.len() > 0 => {
            let lower = unicode_lower(t);
            let score = clamp_score(
                50 + 3 * words_present(lower, positive_words()) - 3 * words_present(
                    lower,
                    negative_words(),
                ),
            );
            (
                score,
                if score >= 62 {
                    "Cautiously positive"@
                } else if score <= 38 {
                    "Cautiously negative"@
                } else {
                    "Neutral"@
                },
            )
        },
        _ => (50, "Neutral"@),
    }
}

proof fn lemma_words_present_bounds(text: Seq<char>, words: Seq<Seq<char>>)
    ensures
        0 <= words_present(text, words) <= words.len(),
    decreases words.len(),
{
    if words.len() > 0 {
        lemma_words_present_bounds(text, words.drop_last());
    }
}

fn count_words_present(text: &[char], words: &[&str]) -> (r: i32)
    requires
        words@.len() <= 100,
    ensures
        r == words_present(text@, words@.map_values(|w: &str| w@)),
{
    let ghost wv = words@.map_values(|w: &str| w@);
    let mut n: i32 = 0;
    let mut i: usize = 0;
    while i < words.len()
        invariant
            i <= words@.len(),
            words@.len() <= 100,
            wv == words@.map_values(|w: &str| w@),
            n == words_present(text@, wv.take(i as int)),
            n <= i,
        decreases words.len() - i,
    {
        assert(wv.take(i + 1).drop_last() =~= wv.take(i as int));
        assert(wv.take(i + 1).last() == words@[i as int]@);
        proof {
            lemma_words_present_bounds(text@, wv.take(i as int));
        }
        if contains_str(text, words[i]) {
            n += 1;
        }
        i += 1;
    }
    assert(wv.take(words@.len() as int) =~= wv);
    n
}

/// Tone of the business summary: a score (0–100) and its label.
pub fn tone_from_summary(text: Option<&str>) -> (r: (i32, String))
    ensures
        (r.0 as int, r.1@) == tone_of(opt_str(text)),
{
    let t = match text {
        Some(t) => t,
        None => return (50, string_of("Neutral")),
    };
    let tv = chars_of(t);
    if tv.len() == 0 {
        return (50, string_of("Neutral"));
    }
    let lower = lower_chars(tv.as_slice());
    let pos: Vec<&str> = vec!["growth", "leading", "strong", "expand", "opportunity", "innovation", "diverse", "robust", "improve", "profit", "customer", "sustainable"];
    let neg: Vec<&str> = vec!["risk", "decline", "challenge", "uncertain", "litigation", "debt", "loss", "weak", "competition", "volatile", "adverse"];
    assert(pos@.map_values(|w: &str| w@) =~= positive_words());
    assert(neg@.map_values(|w: &str| w@) =~= negative_words());
    let p = count_words_present(lower.as_slice(), pos.as_slice());
    let q = count_words_present(lower.as_slice(), neg.as_slice());
    proof {
        lemma_words_present_bounds(lower@, positive_words());
        lemma_words_present_bounds(lower@, negative_words());
    }
    let raw = 50 + 3 * p - 3 * q;
    let score = if raw < 0 {
        0
    } else if raw > 100 {
        100
    } else {
        raw
    };
    let label = if score >= 62 {
        string_of("Cautiously positive")
    } else if score <= 38 {
        string_of("Cautiously negative")
    } else {
        string_of("Neutral")
    };
    (score, label)
}

// ---------------------------------------------------------------------------
// Risk buckets of any company
// ---------------------------------------------------------------------------

/// What the risk buckets read of a company's figures, as plain facts.
pub struct RiskSignals {
    /// Profit margin below 8%.
    pub thin_margin: bool,
    /// Debt to equity reported and above 1.0.
    pub high_debt: bool,
    /// Net income positive and operating cash flow at least net income.
    pub cash_covers_profit: bool,
    /// Free cash flow reported and at most zero.
    pub fcf_non_positive: bool,
    /// A promoter pledge is reported.
    pub pledged: bool,
    /// P/E above 35.
    pub pe_above_35: bool,
    /// P/E above 20.
    pub pe_above_20: bool,
}

/// What the risk buckets read of the financial-strength audit.
pub struct AuditFindings {
    /// The metric names of the audit checklist.
    pub checklist_metrics: Vec<String>,
    /// The audit's red flags, in order.
    pub red_flags: Vec<String>,
    /// The earnings-quality score as displayed (no decimals) when it is below 40 and
    /// the scores are final.
    pub failed_earnings_quality: Option<String>,
}

/// The audit holds no bank asset-quality checks (GNPA or Stage 3), or there is no audit.
pub open spec fn no_asset_quality_checks(audit: Option<AuditFindings>) -> bool {
    match audit {
        None => true,
        Some(a) => forall|k: int|
            0 <= k < a.checklist_metrics@.len() ==> !contains_seq(
                #[trigger] a.checklist_metrics@[k]@,
                "GNPA"@,
            ) && !contains_seq(a.checklist_metrics@[k]@, "Stage 3"@),
    }
}

/// One risk when `add` holds, else none.
pub open spec fn one_if(add: bool, r: (RiskCategory, Seq<char>, Seq<char>, Seq<char>)) -> Seq<
    (RiskCategory, Seq<char>, Seq<char>, Seq<char>),
> {
    if add {
        seq![r]
    } else {
        Seq::empty()
    }
}

/// A red flag as a financial risk: its first 60 characters, high severity, the flag as note.
pub open spec fn red_flag_risk(flag: Seq<char>) -> (RiskCategory, Seq<char>, Seq<char>, Seq<char>) {
    (
        RiskCategory::Financial,
        flag.take(if flag.len() < 60 { flag.len() as int } else { 60 }),
        "High"@,
        flag,
    )
}

/// The risks from the audit: its first four red flags, then a failed earnings-quality screen.
pub open spec fn audit_risks(audit: Option<AuditFindings>) -> Seq<
    (RiskCategory, Seq<char>, Seq<char>, Seq<char>),
> {
    match audit {
        None => Seq::empty(),
        Some(a) => {
            let flags = string_views(a.red_flags@);
            flags.take(if flags.len() < 4 { flags.len() as int } else { 4 }).map_values(
                |f: Seq<char>| red_flag_risk(f),
            ) + match a.failed_earnings_quality {
                Some(score) => seq![
                    (
                        RiskCategory::Financial,
                        "Earnings quality audit failed"@,
                        "High"@,
                        "Earnings quality score "@ + score@
                            + "/100 — CFO/PAT and working capital checks weak."@,
                    ),
                ],
                None => Seq::empty(),
            }
        },
    }
}

/// Risk buckets of a company that is not a lender.
pub open spec fn industrial_risk_buckets(sig: RiskSignals, audit: Option<AuditFindings>) -> Seq<
    Seq<(RiskCategory, Seq<char>, Seq<char>, Seq<char>)>,
> {
    let clean = no_asset_quality_checks(audit);
    seq![
        with_if(seq![
            (RiskCategory::Business, "Demand slowdown"@, "Medium"@, "Track volume growth and order trends quarterly."@),
            (RiskCategory::Business, "Technology disruption"@, "Medium"@, "Watch product mix and R&D response."@),
            (RiskCategory::Business, "Cyclicality"@, "Medium"@, "Margin and utilization can reverse in downturns."@),
        ], sig.thin_margin, (RiskCategory::Business, "Weak entry barriers"@, "High"@, "Low margin profile can signal pricing pressure."@)),
        seq![(RiskCategory::Financial, "Working capital stress"@, "Medium"@, "Cross-check receivable/inventory days in filings."@)] + one_if(sig.high_debt && clean, (RiskCategory::Financial, "High debt"@, "High"@, "Debt/equity is elevated versus comfort zone."@)) + one_if(
            sig.fcf_non_positive && !sig.cash_covers_profit && clean,
            (RiskCategory::Financial, "Poor cash flow"@, "High"@, "Free cash flow is weak/negative on latest print."@),
        ) + audit_risks(audit),
        with_if(seq![
            (RiskCategory::Management, "Related-party deals"@, "Medium"@, "Read notes and auditor comments."@),
            (RiskCategory::Management, "Capital misallocation"@, "Medium"@, "Track M&A/payback quality and buyback discipline."@),
        ], sig.pledged, (RiskCategory::Management, "Pledge"@, "High"@, "Promoter pledge reported; monitor trend as red flag."@)),
        seq![
            (RiskCategory::Valuation, "Growth already priced in"@, "Medium"@, "Compare multiple vs growth sustainability."@),
            if sig.pe_above_35 {
                (RiskCategory::Valuation, "Overvaluation"@, "High"@, "High P/E raises de-rating risk if growth misses."@)
            } else {
                (RiskCategory::Valuation, "Multiple derating"@, "Medium"@, "Even fair valuations can de-rate in weak cycles."@)
            },
        ],
        seq![
            (RiskCategory::Regulatory, "Policy change"@, "Medium"@, "Track sector policy and compliance updates."@),
            (RiskCategory::Regulatory, "Taxation change"@, "Medium"@, "Watch effective tax-rate volatility."@),
            (RiskCategory::Regulatory, "Licensing issues"@, "Low"@, "Relevant for regulated industries."@),
            (RiskCategory::Regulatory, "Price controls"@, "Low"@, "Can compress realized pricing power."@),
        ],
    ]
}

fn no_asset_quality_checks_exec(audit: Option<&AuditFindings>) -> (r: bool)
    ensures
        r == no_asset_quality_checks(
            match audit {
                Some(a) => Some(*a),
                None => None,
            },
        ),
{
    match audit {
        None => true,
        Some(a) => {
            let mut k: usize = 0;
            while k < a.checklist_metrics.len()
                invariant
                    audit == Some(a),
                    k <= a.checklist_metrics@.len(),
                    forall|j: int|
                        0 <= j < k ==> !contains_seq(#[trigger] a.checklist_metrics@[j]@, "GNPA"@)
                            && !contains_seq(a.checklist_metrics@[j]@, "Stage 3"@),
                decreases a.checklist_metrics.len() - k,
            {
                let m = chars_of(a.checklist_metrics[k].as_str());
                if contains_str(m.as_slice(), "GNPA") || contains_str(m.as_slice(), "Stage 3") {
                    assert(a.checklist_metrics@[k as int]@ == m@);
                    return false;
                }
                k += 1;
            }
            true
        },
    }
}

fn push_audit_risks(v: &mut Vec<RiskItem>, audit: Option<&AuditFindings>)
    ensures
        risk_views(final(v)@) == risk_views(old(v)@) + audit_risks(
            match audit {
                Some(a) => Some(*a),
                None => None,
            },
        ),
{
    let a = match audit {
        Some(a) => a,
        None => {
            assert(risk_views(v@) =~= risk_views(v@) + Seq::<(RiskCategory, Seq<char>, Seq<char>, Seq<char>)>::empty());
            return;
        },
    };
    let ghost start = risk_views(v@);
    let ghost flags = string_views(a.red_flags@);
    let n = if a.red_flags.len() < 4 {
        a.red_flags.len()
    } else {
        4
    };
    let mut i: usize = 0;
    while i < n
        invariant
            n <= a.red_flags@.len(),
            i <= n,
            flags == string_views(a.red_flags@),
            risk_views(v@) == start + flags.take(i as int).map_values(|f: Seq<char>| red_flag_risk(f)),
        decreases n - i,
    {
        let f = chars_of(a.red_flags[i].as_str());
        let m = if f.len() < 60 {
            f.len()
        } else {
            60
        };
        let head = crate::text::slice_chars(f.as_slice(), 0, m);
        assert(head@ =~= f@.take(m as int));
        let ghost before = risk_views(v@);
        v.push(
            RiskItem {
                category: RiskCategory::Financial,
                risk: crate::text::string_from_chars(head.as_slice()),
                severity: string_of("High"),
                note: string_of(a.red_flags[i].as_str()),
            },
        );
        assert(risk_views(v@) =~= before.push(red_flag_risk(flags[i as int])));
        i += 1;
        assert(flags.take(i as int).map_values(|f: Seq<char>| red_flag_risk(f)) =~= flags.take(
            i - 1,
        ).map_values(|f: Seq<char>| red_flag_risk(f)).push(red_flag_risk(flags[i - 1])));
    }
    let ghost mid = risk_views(v@);
    match &a.failed_earnings_quality {
        Some(score) => {
            let mut note = string_of("Earnings quality score ");
            push_str(&mut note, score.as_str());
            push_str(&mut note, "/100 — CFO/PAT and working capital checks weak.");
            v.push(
                RiskItem {
                    category: RiskCategory::Financial,
                    risk: string_of("Earnings quality audit failed"),
                    severity: string_of("High"),
                    note,
                },
            );
            assert(risk_views(v@) =~= mid.push(risk_views(v@).last()));
        },
        None => {},
    }
    assert(risk_views(v@) =~= start + audit_risks(Some(*a)));
}

/// Risk buckets for a company of type `company_type`: lenders get the lender buckets
/// (pledge and a P/E above 20 add risks); others get business, financial,
/// management, valuation and regulatory risks from `sig` and the audit findings.
pub fn categorize_risks(
    sig: &RiskSignals,
    audit: Option<&AuditFindings>,
    company_type: FinancialCompanyType,
) -> (r: RiskBuckets)
    ensures
        buckets_view(r) == if company_type == FinancialCompanyType::Bank {
            bank_risk_buckets(sig.pledged, sig.pe_above_20)
        } else if lender_type(company_type) {
            nbfc_risk_buckets(
                company_type == FinancialCompanyType::NbfcProjectFinance,
                sig.pledged,
                sig.pe_above_20,
            )
        } else {
            industrial_risk_buckets(
                *sig,
                match audit {
                    Some(a) => Some(*a),
                    None => None,
                },
            )
        },
{
    if company_type.is_lender() {
        return lender_risks(company_type, sig.pledged, sig.pe_above_20);
    }
    let mut business_risks = vec![
        risk(RiskCategory::Business, "Demand slowdown", "Medium", "Track volume growth and order trends quarterly."),
        risk(RiskCategory::Business, "Technology disruption", "Medium", "Watch product mix and R&D response."),
        risk(RiskCategory::Business, "Cyclicality", "Medium", "Margin and utilization can reverse in downturns."),
    ];
    push_risk_if(&mut business_risks, sig.thin_margin, risk(RiskCategory::Business, "Weak entry barriers", "High", "Low margin profile can signal pricing pressure."));
    let clean = no_asset_quality_checks_exec(audit);
    let mut financial_risks = vec![risk(RiskCategory::Financial, "Working capital stress", "Medium", "Cross-check receivable/inventory days in filings.")];
    push_risk_if(&mut financial_risks, sig.high_debt && clean, risk(RiskCategory::Financial, "High debt", "High", "Debt/equity is elevated versus comfort zone."));
    push_risk_if(
        &mut financial_risks,
        sig.fcf_non_positive && !sig.cash_covers_profit && clean,
        risk(RiskCategory::Financial, "Poor cash flow", "High", "Free cash flow is weak/negative on latest print."),
    );
    push_audit_risks(&mut financial_risks, audit);
    let mut management_risks = vec![
        risk(RiskCategory::Management, "Related-party deals", "Medium", "Read notes and auditor comments."),
        risk(RiskCategory::Management, "Capital misallocation", "Medium", "Track M&A/payback quality and buyback discipline."),
    ];
    push_risk_if(&mut management_risks, sig.pledged, risk(RiskCategory::Management, "Pledge", "High", "Promoter pledge reported; monitor trend as red flag."));
    let valuation_risks = if sig.pe_above_35 {
        vec![risk(RiskCategory::Valuation, "Growth already priced in", "Medium", "Compare multiple vs growth sustainability."), risk(RiskCategory::Valuation, "Overvaluation", "High", "High P/E raises de-rating risk if growth misses.")]
    } else {
        vec![risk(RiskCategory::Valuation, "Growth already priced in", "Medium", "Compare multiple vs growth sustainability."), risk(RiskCategory::Valuation, "Multiple derating", "Medium", "Even fair valuations can de-rate in weak cycles.")]
    };
    let regulatory_risks = vec![
        risk(RiskCategory::Regulatory, "Policy change", "Medium", "Track sector policy and compliance updates."),
        risk(RiskCategory::Regulatory, "Taxation change", "Medium", "Watch effective tax-rate volatility."),
        risk(RiskCategory::Regulatory, "Licensing issues", "Low", "Relevant for regulated industries."),
        risk(RiskCategory::Regulatory, "Price controls", "Low", "Can compress realized pricing power."),
    ];
    let r = RiskBuckets {
        business_risks,
        financial_risks,
        management_risks,
        valuation_risks,
        regulatory_risks,
    };
    proof {
        let ghost au = match audit {
            Some(a) => Some(*a),
            None => None,
        };
        assert(risk_views(r.financial_risks@) =~= seq![(RiskCategory::Financial, "Working capital stress"@, "Medium"@, "Cross-check receivable/inventory days in filings."@)] + one_if(
            sig.high_debt && clean,
            (RiskCategory::Financial, "High debt"@, "High"@, "Debt/equity is elevated versus comfort zone."@),
        ) + one_if(
            sig.fcf_non_positive && !sig.cash_covers_profit && clean,
            (RiskCategory::Financial, "Poor cash flow"@, "High"@, "Free cash flow is weak/negative on latest print."@),
        ) + audit_risks(au));
    }
    assert(buckets_view(r) =~~= industrial_risk_buckets(
        *sig,
        match audit {
            Some(a) => Some(*a),
            None => None,
        },
    ));
    r
}

// ---------------------------------------------------------------------------
// Peer comparison table
// ---------------------------------------------------------------------------

/// A company as a peer-table column names it.
#[derive(Debug)]
pub struct PeerName {
    pub symbol: String,
    pub short_name: Option<String>,
}

/// The structure of a peer comparison table: the company's column label, three peer
/// columns (each the index of a peer, or `None` where the company fills an empty slot)
/// with their labels, and the metric rows. The cells are the quotes' figures.
#[derive(Debug)]
pub struct PeerTableLayout {
    pub company_label: String,
    pub peer_columns: Vec<Option<usize>>,
    pub peer_labels: Vec<String>,
    pub metrics: Vec<String>,
}

/// A column label: the short name when it has more than white space, else the symbol.
pub open spec fn column_label(symbol: Seq<char>, short_name: Option<Seq<char>>) -> Seq<char> {
    match short_name {
        Some(s) => if trim(s).len() > 0 {
            s
        } else {
            symbol
        },
        None => symbol,
    }
}

pub open spec fn name_label(n: PeerName) -> Seq<char> {
    column_label(
        n.symbol@,
        match n.short_name {
            Some(s) => Some(s@),
            None => None,
        },
    )
}

/// Peer column `k`: the first three peers, the company filling the slots beyond them.
pub open spec fn peer_column(peer_count: nat, k: int) -> Option<usize> {
    if k < peer_count {
        Some(k as usize)
    } else {
        None
    }
}

/// The label of peer column `k`.
pub open spec fn peer_column_label(subject: PeerName, peers: Seq<PeerName>, k: int) -> Seq<char> {
    match peer_column(peers.len(), k) {
        Some(j) => name_label(peers[j as int]),
        None => name_label(subject),
    }
}

/// The metric rows: lenders compare valuation, returns, lender metrics and dividends,
/// not industrial growth, margin and EV/EBITDA rows.
pub open spec fn peer_table_metrics(t: FinancialCompanyType) -> Seq<Seq<char>> {
    if lender_type(t) {
        seq![
            "P/E"@,
            "P/B"@,
            "ROE"@,
            "ROA"@,
            "NIM"@,
            "GNPA / NNPA"@,
            "CRAR"@,
            "Loan book growth"@,
            "Yahoo current earningsGrowth (not FY PAT)"@,
            "Book-value growth"@,
            "Dividend yield"@,
        ]
    } else {
        seq![
            "Revenue growth"@,
            "EBITDA margin"@,
            "Yahoo current earningsGrowth (not FY PAT)"@,
            "ROE"@,
            "ROCE"@,
            "Debt/equity"@,
            "P/E"@,
            "EV/EBITDA (Yahoo stats if present, else quote cash)"@,
        ]
    }
}

fn name_label_exec(n: &PeerName) -> (r: String)
    ensures
        r@ == name_label(*n),
{
    match &n.short_name {
        Some(s) => {
            if trim_str(s.as_str()).len() > 0 {
                s.clone()
            } else {
                n.symbol.clone()
            }
        },
        None => n.symbol.clone(),
    }
}

fn metric_rows(t: FinancialCompanyType) -> (r: Vec<String>)
    ensures
        string_views(r@) == peer_table_metrics(t),
{
    let names: Vec<&str> = if t.is_lender() {
        vec![
            "P/E",
            "P/B",
            "ROE",
            "ROA",
            "NIM",
            "GNPA / NNPA",
            "CRAR",
            "Loan book growth",
            "Yahoo current earningsGrowth (not FY PAT)",
            "Book-value growth",
            "Dividend yield",
        ]
    } else {
        vec![
            "Revenue growth",
            "EBITDA margin",
            "Yahoo current earningsGrowth (not FY PAT)",
            "ROE",
            "ROCE",
            "Debt/equity",
            "P/E",
            "EV/EBITDA (Yahoo stats if present, else quote cash)",
        ]
    };
    let ghost want = names@.map_values(|x: &str| x@);
    assert(want =~= peer_table_metrics(t));
    let mut out: Vec<String> = Vec::new();
    let mut i: usize = 0;
    while i < names.len()
        invariant
            i <= names.len(),
            want == names@.map_values(|x: &str| x@),
            string_views(out@) == want.take(i as int),
        decreases names.len() - i,
    {
        assert(want[i as int] == names@[i as int]@);
        let ghost prev = string_views(out@);
        let name = string_of(names[i]);
        out.push(name);
        assert(string_views(out@) =~= prev.push(want[i as int]));
        assert(want.take(i + 1) =~= want.take(i as int).push(want[i as int]));
        i = i + 1;
    }
    assert(want.take(names@.len() as int) =~= want);
    out
}

/// The structure of the peer comparison table of `subject` against `peers` for a
/// company of type `t`.
pub fn peer_table_layout(subject: &PeerName, peers: &[PeerName], t: FinancialCompanyType) -> (r:
    PeerTableLayout)
    ensures
        r.company_label@ == name_label(*subject),
        r.peer_columns@.len() == 3,
        r.peer_labels@.len() == 3,
        forall|k: int| 0 <= k < 3 ==> #[trigger] r.peer_columns@[k] == peer_column(peers@.len(), k),
        forall|k: int|
            0 <= k < 3 ==> #[trigger] r.peer_labels@[k]@ == peer_column_label(*subject, peers@, k),
        string_views(r.metrics@) == peer_table_metrics(t),
{
    let company_label = name_label_exec(subject);
    let mut peer_columns: Vec<Option<usize>> = Vec::new();
    let mut peer_labels: Vec<String> = Vec::new();
    let mut k: usize = 0;
    while k < 3
        invariant
            k <= 3,
            peer_columns@.len() == k,
            peer_labels@.len() == k,
            forall|j: int| 0 <= j < k ==> #[trigger] peer_columns@[j] == peer_column(peers@.len(), j),
            forall|j: int|
                0 <= j < k ==> #[trigger] peer_labels@[j]@ == peer_column_label(*subject, peers@, j),
        decreases 3 - k,
    {
        if k < peers.len() {
            peer_columns.push(Some(k));
            peer_labels.push(name_label_exec(&peers[k]));
        } else {
            peer_columns.push(None);
            peer_labels.push(name_label_exec(subject));
        }
        assert(peer_columns@[k as int] == peer_column(peers@.len(), k as int));
        assert(peer_labels@[k as int]@ == peer_column_label(*subject, peers@, k as int));
        k = k + 1;
    }
    PeerTableLayout { company_label, peer_columns, peer_labels, metrics: metric_rows(t) }
}

} // verus!
