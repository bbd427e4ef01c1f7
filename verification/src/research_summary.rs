//! Plain-language pieces of the research summary.

use vstd::prelude::*;

use crate::financial_company::{
    company_type_label, company_type_label_of, lender_type, NA_FILING, NA_YAHOO,
};
use crate::financial_strength_audit::push_when;
use crate::models::{
    ActionGuidance, FinancialCompanyType, ResearchSummary, RiskBuckets, RiskItem, TechnicalState,
};
use crate::text::{
    chars_eq_str, chars_of, contains_seq, contains_str, join_seqs, join_strings, push_str,
    string_of, string_views,
};

verus! {

/// `risk (severity)`.
pub open spec fn risk_phrase(r: RiskItem) -> Seq<char> {
    r.risk@ + " ("@ + r.severity@ + ")"@
}

/// The phrases of the first two financial risks and the first valuation risk.
pub open spec fn key_risk_phrases(risks: RiskBuckets) -> Seq<Seq<char>> {
    let fin = risks.financial_risks@;
    let val = risks.valuation_risks@;
    fin.take(if fin.len() < 2 { fin.len() as int } else { 2 }).map_values(
        |r: RiskItem| risk_phrase(r),
    ) + val.take(if val.len() < 1 { val.len() as int } else { 1 }).map_values(
        |r: RiskItem| risk_phrase(r),
    )
}

/// Key risks line of the summary.
pub open spec fn key_risks_text(risks: RiskBuckets) -> Seq<char> {
    let parts = key_risk_phrases(risks);
    if parts.len() == 0 {
        "No automated high-severity flags beyond generic sector risks."@
    } else {
        join_seqs(parts, "; "@)
    }
}

fn risk_phrase_exec(r: &RiskItem) -> (s: String)
    ensures
        s@ == risk_phrase(*r),
{
    let mut s = string_of(r.risk.as_str());
    push_str(&mut s, " (");
    push_str(&mut s, r.severity.as_str());
    push_str(&mut s, ")");
    s
}

/// The first two financial risks and the first valuation risk, as `risk (severity)`.
pub fn summarize_risks(risks: &RiskBuckets) -> (r: String)
    ensures
        r@ == key_risks_text(*risks),
{
    let ghost fin = risks.financial_risks@;
    let ghost val = risks.valuation_risks@;
    let mut parts: Vec<String> = Vec::new();
    let nf = if risks.financial_risks.len() < 2 {
        risks.financial_risks.len()
    } else {
        2
    };
    let mut i: usize = 0;
    while i < nf
        invariant
            fin == risks.financial_risks@,
            nf <= fin.len(),
            i <= nf,
            string_views(parts@) == fin.take(i as int).map_values(|r: RiskItem| risk_phrase(r)),
        decreases nf - i,
    {
        let p = risk_phrase_exec(&risks.financial_risks[i]);
        let ghost prev = parts@;
        parts.push(p);
        assert(string_views(parts@) =~= string_views(prev).push(p@));
        i += 1;
        assert(fin.take(i as int) =~= fin.take(i - 1).push(fin[i - 1]));
        assert(string_views(parts@) =~= fin.take(i as int).map_values(|r: RiskItem| risk_phrase(r)));
    }
    let ghost first = string_views(parts@);
    let nv = if risks.valuation_risks.len() < 1 {
        risks.valuation_risks.len()
    } else {
        1
    };
    let mut k: usize = 0;
    while k < nv
        invariant
            val == risks.valuation_risks@,
            nv <= val.len(),
            k <= nv,
            string_views(parts@) == first + val.take(k as int).map_values(
                |r: RiskItem| risk_phrase(r),
            ),
        decreases nv - k,
    {
        let p = risk_phrase_exec(&risks.valuation_risks[k]);
        let ghost prev = parts@;
        parts.push(p);
        assert(string_views(parts@) =~= string_views(prev).push(p@));
        k += 1;
        assert(val.take(k as int) =~= val.take(k - 1).push(val[k - 1]));
        assert(string_views(parts@) =~= first + val.take(k as int).map_values(
            |r: RiskItem| risk_phrase(r),
        ));
    }
    assert(string_views(parts@) =~= key_risk_phrases(*risks));
    if parts.len() == 0 {
        string_of("No automated high-severity flags beyond generic sector risks.")
    } else {
        join_strings(&parts, "; ")
    }
}

/// The moving-average part of the technical position.
pub open spec fn dma_phrase(above50: Option<bool>, above200: Option<bool>) -> Option<Seq<char>> {
    match (above50, above200) {
        (Some(true), Some(true)) => Some("Price is above both 50 and 200 DMA"@),
        (Some(true), Some(false)) => Some("Price is above 50 DMA and below 200 DMA"@),
        (Some(false), Some(true)) => Some("Price is below 50 DMA and above 200 DMA"@),
        (Some(false), Some(false)) => Some("Price is below both 50 and 200 DMA"@),
        (Some(true), None) => Some("Price is above 50 DMA"@),
        (Some(false), None) => Some("Price is below 50 DMA"@),
        (None, Some(true)) => Some("Price is above 200 DMA"@),
        (None, Some(false)) => Some("Price is below 200 DMA"@),
        (None, None) => None,
    }
}

/// The RSI part of the technical position.
pub open spec fn rsi_phrase(st: TechnicalState, rsi_known: bool, rsi_label: Seq<char>) -> Option<
    Seq<char>,
> {
    if st.rsi_oversold == Some(true) {
        Some("RSI oversold (<30)"@)
    } else if st.rsi_below_35 == Some(true) {
        Some("RSI below 35"@)
    } else if st.rsi_weak == Some(true) {
        Some("RSI weak (<40)"@)
    } else if rsi_known {
        Some("RSI "@ + rsi_label)
    } else {
        None
    }
}

/// The MACD part of the technical position.
pub open spec fn macd_phrase(st: TechnicalState) -> Option<Seq<char>> {
    if st.macd_bullish == Some(true) {
        Some("MACD bullish"@)
    } else if st.macd_bullish == Some(false) {
        Some("MACD bearish"@)
    } else {
        None
    }
}

/// The phrases that apply, in order.
pub open spec fn position_phrases(st: TechnicalState, rsi_known: bool, rsi_label: Seq<char>) -> Seq<
    Seq<char>,
> {
    let opt = |o: Option<Seq<char>>|
        match o {
            Some(p) => seq![p],
            None => Seq::<Seq<char>>::empty(),
        };
    opt(dma_phrase(st.above_dma50, st.above_dma200)) + opt(rsi_phrase(st, rsi_known, rsi_label))
        + opt(macd_phrase(st)) + opt(
        if st.price_stretched_vs_50 == Some(true) {
            Some("price stretched vs 50 DMA"@)
        } else {
            None
        },
    )
}

/// The technical position sentence.
pub open spec fn technical_position_text(
    st: TechnicalState,
    rsi_known: bool,
    rsi_label: Seq<char>,
) -> Seq<char> {
    let parts = position_phrases(st, rsi_known, rsi_label);
    if parts.len() == 0 {
        "Technical state incomplete (missing SMA/RSI)."@
    } else {
        join_seqs(parts, "; "@) + "."@
    }
}

fn push_opt(parts: &mut Vec<String>, o: Option<String>)
    ensures
        string_views(final(parts)@) == string_views(old(parts)@) + match o {
            Some(p) => seq![p@],
            None => Seq::<Seq<char>>::empty(),
        },
{
    match o {
        Some(p) => {
            let ghost prev = parts@;
            parts.push(p);
            assert(string_views(parts@) =~= string_views(prev) + seq![p@]);
        },
        None => {
            assert(string_views(parts@) =~= string_views(parts@) + Seq::<Seq<char>>::empty());
        },
    }
}

/// One sentence on moving averages, RSI, MACD and stretch, from the technical flags.
/// `rsi_known` tells whether an RSI value exists; `rsi_label` is its label.
pub fn technical_position_from_state(st: &TechnicalState, rsi_known: bool, rsi_label: &str) -> (r:
    String)
    ensures
        r@ == technical_position_text(*st, rsi_known, rsi_label@),
{
    let mut parts: Vec<String> = Vec::new();
    let dma = match (st.above_dma50, st.above_dma200) {
        (Some(true), Some(true)) => Some(string_of("Price is above both 50 and 200 DMA")),
        (Some(true), Some(false)) => Some(string_of("Price is above 50 DMA and below 200 DMA")),
        (Some(false), Some(true)) => Some(string_of("Price is below 50 DMA and above 200 DMA")),
        (Some(false), Some(false)) => Some(string_of("Price is below both 50 and 200 DMA")),
        (Some(true), None) => Some(string_of("Price is above 50 DMA")),
        (Some(false), None) => Some(string_of("Price is below 50 DMA")),
        (None, Some(true)) => Some(string_of("Price is above 200 DMA")),
        (None, Some(false)) => Some(string_of("Price is below 200 DMA")),
        (None, None) => None,
    };
    push_opt(&mut parts, dma);
    let rsi = if st.rsi_oversold == Some(true) {
        Some(string_of("RSI oversold (<30)"))
    } else if st.rsi_below_35 == Some(true) {
        Some(string_of("RSI below 35"))
    } else if st.rsi_weak == Some(true) {
        Some(string_of("RSI weak (<40)"))
    } else if rsi_known {
        let mut s = string_of("RSI ");
        push_str(&mut s, rsi_label);
        Some(s)
    } else {
        None
    };
    push_opt(&mut parts, rsi);
    let macd = if st.macd_bullish == Some(true) {
        Some(string_of("MACD bullish"))
    } else if st.macd_bullish == Some(false) {
        Some(string_of("MACD bearish"))
    } else {
        None
    };
    push_opt(&mut parts, macd);
    let stretched = if st.price_stretched_vs_50 == Some(true) {
        Some(string_of("price stretched vs 50 DMA"))
    } else {
        None
    };
    push_opt(&mut parts, stretched);
    assert(string_views(parts@) =~= position_phrases(*st, rsi_known, rsi_label@));
    if parts.len() == 0 {
        string_of("Technical state incomplete (missing SMA/RSI).")
    } else {
        let mut s = join_strings(&parts, "; ");
        push_str(&mut s, ".");
        s
    }
}

/// The short business summary: the first 480 characters, with `…` appended when
/// they take 480 bytes or more in UTF-8.
pub open spec fn short_summary(summary: Seq<char>) -> Seq<char> {
    let head = summary.take(if summary.len() < 480 { summary.len() as int } else { 480 });
    if vstd::utf8::encode_utf8(head).len() >= 480 {
        head + seq!['…']
    } else {
        head
    }
}

/// The business summary shown in the company overview.
pub fn short_business_summary(summary: Option<&str>) -> (r: String)
    ensures
        r@ == short_summary(
            match summary {
                Some(s) => s@,
                None => Seq::empty(),
            },
        ),
{
    let v = match summary {
        Some(s) => crate::text::chars_of(s),
        None => Vec::new(),
    };
    let n = if v.len() < 480 {
        v.len()
    } else {
        480
    };
    let head = crate::text::slice_chars(v.as_slice(), 0, n);
    assert(head@ =~= v@.take(n as int));
    let mut out = crate::text::string_from_chars(head.as_slice());
    let bytes = out.as_str().as_bytes().len();
    if bytes >= 480 {
        crate::text::string_push(&mut out, '…');
    }
    out
}

// ---------------------------------------------------------------------------
// The research summary
// ---------------------------------------------------------------------------

/// What the research summary reads: the report's texts, the audit's lists and the
/// action guidance, with every figure already formatted for display.
#[derive(Debug)]
pub struct SummaryInputs {
    pub company_type: FinancialCompanyType,
    pub company_name: String,
    /// Interpretations of the profitability, growth, balance-sheet and cash-flow sections.
    pub profitability: String,
    pub growth: String,
    pub balance_sheet: String,
    pub cash_flow: String,
    pub historical_classification: String,
    pub peer_value_read: String,
    pub valuation_label: String,
    pub technical_position: String,
    pub key_risks: String,
    /// The audit's strengths and red flags, in order.
    pub strengths: Vec<String>,
    pub red_flags: Vec<String>,
    /// The audit checklist as (metric, value as displayed).
    pub checklist: Vec<(String, String)>,
    /// The data coverage withholds the recommendation.
    pub recommendation_gated: bool,
    pub action_guidance: ActionGuidance,
    /// The lender blocks' formatted texts: valuation, earnings, loan growth, data coverage.
    pub valuation_block: String,
    pub earnings_block: String,
    pub loan_growth_block: String,
    pub coverage_block: String,
    /// Overall data coverage in percent, as displayed.
    pub coverage_pct: String,
    /// Overall score, rating label, financial strength (as displayed) and the audit's
    /// confidence, and the entry signal's fundamental-versus-technical read.
    pub overall_score: String,
    pub rating_label: String,
    pub financial_strength: String,
    pub audit_confidence: String,
    pub fundamental_vs_technical: String,
}

/// `s` cut to at most `n` items.
pub open spec fn first_n(s: Seq<Seq<char>>, n: nat) -> Seq<Seq<char>> {
    if s.len() <= n {
        s
    } else {
        s.take(n as int)
    }
}

/// Up to three positives: the audit's first two strengths, then profitability, growth
/// and valuation notes, padded with a filing reminder when fewer than three.
pub open spec fn summary_positives(
    strengths: Seq<Seq<char>>,
    profitability: Seq<char>,
    growth: Seq<char>,
    valuation_label: Seq<char>,
) -> Seq<Seq<char>> {
    let found = first_n(strengths, 2) + crate::financial_strength_audit::when(
        contains_seq(profitability, "High-quality"@),
        "Solid profitability vs heuristic thresholds."@,
    ) + crate::financial_strength_audit::when(contains_seq(growth, "Strong"@), "Growth metrics trending positively."@) + crate::financial_strength_audit::when(
        valuation_label == "Cheap"@ || valuation_label == "Very Cheap"@,
        "Valuation screen vs history/peers is undemanding."@,
    );
    let padded = if found.len() < 3 {
        found.push("Review competitive position and capital allocation in filings."@)
    } else {
        found
    };
    first_n(padded, 3)
}

/// Up to three negatives: the audit's first two red flags, then balance-sheet, cash
/// and valuation notes, padded with a data-gap reminder when fewer than three.
pub open spec fn base_negatives(
    red_flags: Seq<Seq<char>>,
    balance_sheet: Seq<char>,
    cash_flow: Seq<char>,
    valuation_label: Seq<char>,
) -> Seq<Seq<char>> {
    let found = first_n(red_flags, 2) + crate::financial_strength_audit::when(
        contains_seq(balance_sheet, "Risky"@),
        "Balance sheet / liquidity screen is tight."@,
    ) + crate::financial_strength_audit::when(contains_seq(cash_flow, "Weak"@), "Cash conversion weaker than earnings."@) + crate::financial_strength_audit::when(
        contains_seq(valuation_label, "Expensive"@),
        "Multiples are rich vs history or peers."@,
    );
    let padded = if found.len() < 3 {
        found.push("Data gaps may hide one-off items — verify in annual report."@)
    } else {
        found
    };
    first_n(padded, 3)
}

/// A note about cash conversion or balance-sheet liquidity.
pub open spec fn liquidity_note(n: Seq<char>) -> bool {
    contains_seq(n, "Cash conversion"@) || contains_seq(n, "Balance sheet / liquidity"@)
}

/// `s` without its liquidity notes.
pub open spec fn without_liquidity_notes(s: Seq<Seq<char>>) -> Seq<Seq<char>>
    decreases s.len(),
{
    if s.len() == 0 {
        s
    } else {
        let r = without_liquidity_notes(s.drop_last());
        if liquidity_note(s.last()) {
            r
        } else {
            r.push(s.last())
        }
    }
}

/// The note that leads a withheld lender's negatives.
pub open spec fn gated_lender_note() -> Seq<char> {
    "Yahoo lacks GNPA/NNPA/PCR, CRAR and NIM — do not treat as a value trap from debt/CFO."@
}

/// The negatives; for a lender whose recommendation is withheld, the liquidity notes
/// are dropped and (unless an asset-quality note is there) the missing-filings note
/// leads, at most three in all.
pub open spec fn summary_negatives(
    red_flags: Seq<Seq<char>>,
    balance_sheet: Seq<char>,
    cash_flow: Seq<char>,
    valuation_label: Seq<char>,
    gated_lender: bool,
) -> Seq<Seq<char>> {
    let base = base_negatives(red_flags, balance_sheet, cash_flow, valuation_label);
    if gated_lender {
        let kept = without_liquidity_notes(base);
        let led = if forall|k: int| 0 <= k < kept.len() ==> !contains_seq(#[trigger] kept[k], "asset-quality"@) {
            seq![gated_lender_note()] + kept
        } else {
            kept
        };
        first_n(led, 3)
    } else {
        base
    }
}

/// What to keep watching: bank and lender metrics for lenders; otherwise the events to
/// wait for, padded with three standing checks when fewer than three, at most five.
pub open spec fn summary_monitorables(t: FinancialCompanyType, waits: Seq<Seq<char>>) -> Seq<
    Seq<char>,
> {
    if t == FinancialCompanyType::Bank {
        seq![
            "Credit growth vs deposit growth"@,
            "CASA / cost of deposits"@,
            "NIM"@,
            "GNPA / NNPA / credit cost"@,
            "CET1 / CRAR"@,
            "LDR"@,
            "ROA / ROE"@,
        ]
    } else if lender_type(t) {
        seq![
            "GNPA / Stage 3, NNPA, PCR from filings"@,
            "CRAR / Tier-I and gearing vs asset quality"@,
            "NIM, spread, cost of funds"@,
            "Loan book and disbursement growth"@,
        ]
    } else {
        let m = if waits.len() < 3 {
            waits + seq![
                "Revenue and margin trajectory vs guidance."@,
                "Debt, refinancing, and interest coverage."@,
                "Free cash flow vs capex and working capital."@,
            ]
        } else {
            waits
        };
        first_n(m, 5)
    }
}

/// The suggested action for an entry decision.
pub open spec fn suggested_action_of(entry: Seq<char>) -> Seq<char> {
    if entry == "Incomplete — verify filings"@ {
        "Incomplete — verify filings"@
    } else if entry == "Avoid"@ {
        "Avoid"@
    } else if entry == "Wait"@ {
        "Wait for fundamental verification / technical confirmation"@
    } else if entry == "Watch / stagger only"@ {
        "Watch / stagger only"@
    } else if entry == "Buy"@ {
        "Buy"@
    } else {
        "Watch"@
    }
}

fn first_n_exec(v: &mut Vec<String>, n: usize)
    ensures
        string_views(final(v)@) == first_n(string_views(old(v)@), n as nat),
{
    if v.len() > n {
        let ghost before = string_views(v@);
        v.truncate(n);
        assert(string_views(v@) =~= before.take(n as int));
    }
}

fn first_two(src: &Vec<String>) -> (r: Vec<String>)
    ensures
        string_views(r@) == first_n(string_views(src@), 2),
{
    let mut out: Vec<String> = Vec::new();
    let mut i: usize = 0;
    while i < src.len() && i < 2
        invariant
            i <= src.len(),
            i <= 2,
            string_views(out@) == string_views(src@).take(i as int),
        decreases src.len() - i,
    {
        let ghost before = string_views(out@);
        let c = src[i].clone();
        out.push(c);
        assert(string_views(out@) =~= before.push(src@[i as int]@));
        assert(string_views(src@).take(i + 1) =~= string_views(src@).take(i as int).push(
            src@[i as int]@,
        ));
        i = i + 1;
    }
    assert(string_views(src@).take(src@.len() as int) =~= string_views(src@));
    out
}

fn text_contains(s: &String, p: &str) -> (r: bool)
    ensures
        r == contains_seq(s@, p@),
{
    contains_str(chars_of(s.as_str()).as_slice(), p)
}

fn summary_positives_exec(i: &SummaryInputs) -> (r: Vec<String>)
    ensures
        string_views(r@) == summary_positives(
            string_views(i.strengths@),
            i.profitability@,
            i.growth@,
            i.valuation_label@,
        ),
{
    let mut v = first_two(&i.strengths);
    push_when(&mut v, text_contains(&i.profitability, "High-quality"), "Solid profitability vs heuristic thresholds.");
    push_when(&mut v, text_contains(&i.growth, "Strong"), "Growth metrics trending positively.");
    let label = chars_of(i.valuation_label.as_str());
    push_when(
        &mut v,
        chars_eq_str(label.as_slice(), "Cheap") || chars_eq_str(label.as_slice(), "Very Cheap"),
        "Valuation screen vs history/peers is undemanding.",
    );
    if v.len() < 3 {
        let ghost before = string_views(v@);
        v.push(string_of("Review competitive position and capital allocation in filings."));
        assert(string_views(v@) =~= before.push("Review competitive position and capital allocation in filings."@));
    }
    first_n_exec(&mut v, 3);
    v
}

fn base_negatives_exec(i: &SummaryInputs) -> (r: Vec<String>)
    ensures
        string_views(r@) == base_negatives(
            string_views(i.red_flags@),
            i.balance_sheet@,
            i.cash_flow@,
            i.valuation_label@,
        ),
{
    let mut v = first_two(&i.red_flags);
    push_when(&mut v, text_contains(&i.balance_sheet, "Risky"), "Balance sheet / liquidity screen is tight.");
    push_when(&mut v, text_contains(&i.cash_flow, "Weak"), "Cash conversion weaker than earnings.");
    push_when(&mut v, text_contains(&i.valuation_label, "Expensive"), "Multiples are rich vs history or peers.");
    if v.len() < 3 {
        let ghost before = string_views(v@);
        v.push(string_of("Data gaps may hide one-off items — verify in annual report."));
        assert(string_views(v@) =~= before.push("Data gaps may hide one-off items — verify in annual report."@));
    }
    first_n_exec(&mut v, 3);
    v
}

fn without_liquidity_notes_exec(v: Vec<String>) -> (r: Vec<String>)
    ensures
        string_views(r@) == without_liquidity_notes(string_views(v@)),
{
    let ghost sv = string_views(v@);
    let mut out: Vec<String> = Vec::new();
    let mut i: usize = 0;
    while i < v.len()
        invariant
            i <= v.len(),
            sv == string_views(v@),
            string_views(out@) == without_liquidity_notes(sv.take(i as int)),
        decreases v.len() - i,
    {
        assert(sv.take(i + 1).drop_last() =~= sv.take(i as int));
        assert(sv.take(i + 1).last() == v@[i as int]@);
        if !(text_contains(&v[i], "Cash conversion") || text_contains(&v[i], "Balance sheet / liquidity")) {
            let ghost before = string_views(out@);
            out.push(v[i].clone());
            assert(string_views(out@) =~= before.push(v@[i as int]@));
        }
        i = i + 1;
    }
    assert(sv.take(v@.len() as int) =~= sv);
    out
}

fn summary_negatives_exec(i: &SummaryInputs) -> (r: Vec<String>)
    ensures
        string_views(r@) == summary_negatives(
            string_views(i.red_flags@),
            i.balance_sheet@,
            i.cash_flow@,
            i.valuation_label@,
            lender_type(i.company_type) && i.recommendation_gated,
        ),
{
    let base = base_negatives_exec(i);
    if !(i.company_type.is_lender() && i.recommendation_gated) {
        return base;
    }
    let mut kept = without_liquidity_notes_exec(base);
    let ghost kv = string_views(kept@);
    let mut k: usize = 0;
    let mut has_asset_quality = false;
    while k < kept.len()
        invariant
            k <= kept.len(),
            kv == string_views(kept@),
            !has_asset_quality ==> forall|j: int| 0 <= j < k ==> !contains_seq(#[trigger] kv[j], "asset-quality"@),
            has_asset_quality ==> exists|j: int| 0 <= j < kv.len() && contains_seq(#[trigger] kv[j], "asset-quality"@),
        decreases kept.len() - k,
    {
        assert(kv[k as int] == kept@[k as int]@);
        if text_contains(&kept[k], "asset-quality") {
            has_asset_quality = true;
        }
        k = k + 1;
    }
    if !has_asset_quality {
        kept.insert(0, string_of("Yahoo lacks GNPA/NNPA/PCR, CRAR and NIM — do not treat as a value trap from debt/CFO."));
        assert(string_views(kept@) =~= seq![gated_lender_note()] + kv);
    }
    first_n_exec(&mut kept, 3);
    kept
}

fn summary_monitorables_exec(t: FinancialCompanyType, waits: &Vec<String>) -> (r: Vec<String>)
    ensures
        string_views(r@) == summary_monitorables(t, string_views(waits@)),
{
    let names: Vec<&str> = if t == FinancialCompanyType::Bank {
        vec![
            "Credit growth vs deposit growth",
            "CASA / cost of deposits",
            "NIM",
            "GNPA / NNPA / credit cost",
            "CET1 / CRAR",
            "LDR",
            "ROA / ROE",
        ]
    } else if t.is_lender() {
        vec![
            "GNPA / Stage 3, NNPA, PCR from filings",
            "CRAR / Tier-I and gearing vs asset quality",
            "NIM, spread, cost of funds",
            "Loan book and disbursement growth",
        ]
    } else {
        let mut m: Vec<String> = Vec::new();
        let mut j: usize = 0;
        while j < waits.len()
            invariant
                j <= waits.len(),
                string_views(m@) == string_views(waits@).take(j as int),
            decreases waits.len() - j,
        {
            let ghost before = string_views(m@);
            let c = waits[j].clone();
            m.push(c);
            assert(string_views(m@) =~= before.push(waits@[j as int]@));
            assert(string_views(waits@).take(j + 1) =~= string_views(waits@).take(j as int).push(
                waits@[j as int]@,
            ));
            j = j + 1;
        }
        assert(string_views(waits@).take(waits@.len() as int) =~= string_views(waits@));
        if m.len() < 3 {
            let ghost before = string_views(m@);
            m.push(string_of("Revenue and margin trajectory vs guidance."));
            m.push(string_of("Debt, refinancing, and interest coverage."));
            m.push(string_of("Free cash flow vs capex and working capital."));
            assert(string_views(m@) =~= before + seq![
                "Revenue and margin trajectory vs guidance."@,
                "Debt, refinancing, and interest coverage."@,
                "Free cash flow vs capex and working capital."@,
            ]);
        }
        first_n_exec(&mut m, 5);
        return m;
    };
    let ghost want = names@.map_values(|x: &str| x@);
    assert(want =~= summary_monitorables(t, string_views(waits@)));
    let mut out: Vec<String> = Vec::new();
    let mut i: usize = 0;
    while i < names.len()
        invariant
            i <= names.len(),
            want == names@.map_values(|x: &str| x@),
            string_views(out@) == want.take(i as int),
        decreases names.len() - i,
    {
        assert(want[i as int] == names@[i as int]@);
        let ghost before = string_views(out@);
        let name = string_of(names[i]);
        out.push(name);
        assert(string_views(out@) =~= before.push(want[i as int]));
        assert(want.take(i + 1) =~= want.take(i as int).push(want[i as int]));
        i = i + 1;
    }
    assert(want.take(names@.len() as int) =~= want);
    out
}

fn suggested_action_exec(entry: &String) -> (r: String)
    ensures
        r@ == suggested_action_of(entry@),
{
    let e = chars_of(entry.as_str());
    if chars_eq_str(e.as_slice(), "Incomplete — verify filings") {
        string_of("Incomplete — verify filings")
    } else if chars_eq_str(e.as_slice(), "Avoid") {
        string_of("Avoid")
    } else if chars_eq_str(e.as_slice(), "Wait") {
        string_of("Wait for fundamental verification / technical confirmation")
    } else if chars_eq_str(e.as_slice(), "Watch / stagger only") {
        string_of("Watch / stagger only")
    } else if chars_eq_str(e.as_slice(), "Buy") {
        string_of("Buy")
    } else {
        string_of("Watch")
    }
}

/// The checklist as (metric, display) pairs.
pub open spec fn checklist_view(c: Seq<(String, String)>) -> Seq<(Seq<char>, Seq<char>)> {
    c.map_values(|p: (String, String)| (p.0@, p.1@))
}

/// The display of the first checklist item at or after `from` whose metric contains
/// `name` (when `by_contains`) or equals it.
pub open spec fn checklist_display(
    c: Seq<(Seq<char>, Seq<char>)>,
    name: Seq<char>,
    by_contains: bool,
    from: int,
) -> Option<Seq<char>>
    decreases c.len() - from,
{
    if from < 0 || from >= c.len() {
        None
    } else if (by_contains && contains_seq(c[from].0, name)) || (!by_contains && c[from].0 == name) {
        Some(c[from].1)
    } else {
        checklist_display(c, name, by_contains, from + 1)
    }
}

pub open spec fn display_or(d: Option<Seq<char>>, fallback: Seq<char>) -> Seq<char> {
    match d {
        Some(x) => x,
        None => fallback,
    }
}

/// A lender's executive blocks: valuation, earnings, asset quality (GNPA from the
/// checklist), capital (CRAR), lending economics (NIM), loan growth, technical position
/// and data coverage.
pub open spec fn lender_blocks(i: SummaryInputs) -> Seq<(Seq<char>, Seq<char>)> {
    let c = checklist_view(i.checklist@);
    let gnpa = display_or(checklist_display(c, "GNPA"@, true, 0), NA_YAHOO@);
    let crar = display_or(checklist_display(c, "CRAR"@, false, 0), NA_FILING@);
    let nim = display_or(checklist_display(c, "NIM"@, false, 0), NA_FILING@);
    seq![
        ("Valuation"@, i.valuation_block@),
        ("Earnings"@, i.earnings_block@),
        ("Asset quality"@, "GNPA/Stage 3: "@ + gnpa + " · Status: Filing verification required"@),
        ("Capital"@, "CRAR: "@ + crar + " · Status: Filing verification required"@),
        ("Lending economics"@, "NIM: "@ + nim + " · Spread/cost of funds: "@ + NA_FILING@),
        ("Loan growth"@, i.loan_growth_block@),
        ("Technical"@, i.technical_position@),
        ("Data coverage"@, i.coverage_block@),
    ]
}

/// The closing view: for a withheld lender, why the valuation must be read with care;
/// otherwise the guidance headline with the score, rating, strength and entry read.
pub open spec fn final_view_of(i: SummaryInputs) -> Seq<char> {
    if lender_type(i.company_type) && i.recommendation_gated {
        "Yahoo valuation must be read with incomplete filing coverage: Yahoo lacks the "@ + (if i.company_type
            == FinancialCompanyType::Bank {
            "critical bank metrics"@
        } else {
            "critical lender metrics"@
        }) + " needed to judge asset quality and solvency. Do not classify as a value trap solely from debt/CFO metrics. Coverage "@
            + i.coverage_pct@ + "%. "@ + i.action_guidance.headline@
    } else {
        i.action_guidance.headline@ + " Overall score "@ + i.overall_score@ + " — "@
            + i.rating_label@ + ". Financial strength "@ + i.financial_strength@
            + " (confidence: "@ + i.audit_confidence@ + "). "@ + i.fundamental_vs_technical@
    }
}

pub open spec fn blocks_view(b: Seq<(String, String)>) -> Seq<(Seq<char>, Seq<char>)> {
    b.map_values(|p: (String, String)| (p.0@, p.1@))
}

/// The summary's standing disclaimer.
pub open spec fn summary_disclaimer() -> Seq<char> {
    "Outputs are heuristic research support from Yahoo-derived data. Contingent liabilities, related-party loans, and auditor footnotes require manual annual report review. Not investment advice."@
}

fn checklist_display_exec(c: &Vec<(String, String)>, name: &str, by_contains: bool) -> (r: Option<
    String,
>)
    ensures
        r matches Some(d) ==> checklist_display(checklist_view(c@), name@, by_contains, 0) == Some(d@),
        r is None ==> checklist_display(checklist_view(c@), name@, by_contains, 0) is None,
{
    let ghost cv = checklist_view(c@);
    let mut k: usize = 0;
    while k < c.len()
        invariant
            k <= c.len(),
            cv == checklist_view(c@),
            checklist_display(cv, name@, by_contains, 0) == checklist_display(cv, name@, by_contains, k as int),
        decreases c.len() - k,
    {
        let m = chars_of(c[k].0.as_str());
        assert(cv[k as int] == (c@[k as int].0@, c@[k as int].1@));
        let hit = if by_contains {
            contains_str(m.as_slice(), name)
        } else {
            chars_eq_str(m.as_slice(), name)
        };
        if hit {
            return Some(c[k].1.clone());
        }
        k = k + 1;
    }
    None
}

fn display_or_exec(d: Option<String>, fallback: &str) -> (r: String)
    ensures
        r@ == display_or(
            match d {
                Some(x) => Some(x@),
                None => None,
            },
            fallback@,
        ),
{
    match d {
        Some(x) => x,
        None => string_of(fallback),
    }
}

fn labelled(label: &str, text: String) -> (r: (String, String))
    ensures
        r.0@ == label@,
        r.1@ == text@,
{
    (string_of(label), text)
}

fn lender_blocks_exec(i: &SummaryInputs) -> (r: Vec<(String, String)>)
    ensures
        blocks_view(r@) == lender_blocks(*i),
{
    let gnpa = display_or_exec(checklist_display_exec(&i.checklist, "GNPA", true), NA_YAHOO);
    let crar = display_or_exec(checklist_display_exec(&i.checklist, "CRAR", false), NA_FILING);
    let nim = display_or_exec(checklist_display_exec(&i.checklist, "NIM", false), NA_FILING);
    let mut aq = string_of("GNPA/Stage 3: ");
    push_str(&mut aq, gnpa.as_str());
    push_str(&mut aq, " · Status: Filing verification required");
    let mut cap = string_of("CRAR: ");
    push_str(&mut cap, crar.as_str());
    push_str(&mut cap, " · Status: Filing verification required");
    let mut econ = string_of("NIM: ");
    push_str(&mut econ, nim.as_str());
    push_str(&mut econ, " · Spread/cost of funds: ");
    push_str(&mut econ, NA_FILING);
    let r = vec![
        labelled("Valuation", i.valuation_block.clone()),
        labelled("Earnings", i.earnings_block.clone()),
        labelled("Asset quality", aq),
        labelled("Capital", cap),
        labelled("Lending economics", econ),
        labelled("Loan growth", i.loan_growth_block.clone()),
        labelled("Technical", i.technical_position.clone()),
        labelled("Data coverage", i.coverage_block.clone()),
    ];
    assert(blocks_view(r@) =~= lender_blocks(*i));
    r
}

fn final_view_exec(i: &SummaryInputs) -> (r: String)
    ensures
        r@ == final_view_of(*i),
{
    if i.company_type.is_lender() && i.recommendation_gated {
        let mut v = string_of("Yahoo valuation must be read with incomplete filing coverage: Yahoo lacks the ");
        if i.company_type == FinancialCompanyType::Bank {
            push_str(&mut v, "critical bank metrics");
        } else {
            push_str(&mut v, "critical lender metrics");
        }
        push_str(
            &mut v,
            " needed to judge asset quality and solvency. Do not classify as a value trap solely from debt/CFO metrics. Coverage ",
        );
        push_str(&mut v, i.coverage_pct.as_str());
        push_str(&mut v, "%. ");
        push_str(&mut v, i.action_guidance.headline.as_str());
        v
    } else {
        let mut v = i.action_guidance.headline.clone();
        push_str(&mut v, " Overall score ");
        push_str(&mut v, i.overall_score.as_str());
        push_str(&mut v, " — ");
        push_str(&mut v, i.rating_label.as_str());
        push_str(&mut v, ". Financial strength ");
        push_str(&mut v, i.financial_strength.as_str());
        push_str(&mut v, " (confidence: ");
        push_str(&mut v, i.audit_confidence.as_str());
        push_str(&mut v, "). ");
        push_str(&mut v, i.fundamental_vs_technical.as_str());
        v
    }
}

/// The plain-language research summary: positives and negatives from the audit and the
/// section reads, what to monitor per company type, the suggested action from the
/// guidance, the lender executive blocks, and the closing view; for a lender whose
/// recommendation is withheld, liquidity notes give way to the missing-filings note
/// and the closing view explains why.
pub fn build_research_summary_for(i: SummaryInputs) -> (r: ResearchSummary)
    ensures
        r.business_quality@ == i.profitability@,
        r.growth@ == i.growth@,
        r.valuation@ == i.historical_classification@ + " Peer read: "@ + i.peer_value_read@,
        r.technical_position@ == i.technical_position@,
        r.key_risks@ == i.key_risks@,
        r.final_view@ == final_view_of(i),
        string_views(r.key_positives@) == summary_positives(
            string_views(i.strengths@),
            i.profitability@,
            i.growth@,
            i.valuation_label@,
        ),
        string_views(r.key_negatives@) == summary_negatives(
            string_views(i.red_flags@),
            i.balance_sheet@,
            i.cash_flow@,
            i.valuation_label@,
            lender_type(i.company_type) && i.recommendation_gated,
        ),
        string_views(r.key_monitorables@) == summary_monitorables(
            i.company_type,
            string_views(i.action_guidance.wait_for_events@),
        ),
        r.suggested_action@ == suggested_action_of(i.action_guidance.if_considering_entry@),
        r.action_guidance == i.action_guidance,
        r.disclaimer@ == summary_disclaimer(),
        r.company_type_headline@ == i.company_name@ + " — "@ + company_type_label_of(i.company_type),
        blocks_view(r.executive_blocks@) == if lender_type(i.company_type) {
            lender_blocks(i)
        } else {
            Seq::empty()
        },
{
    let positives = summary_positives_exec(&i);
    let negatives = summary_negatives_exec(&i);
    let monitors = summary_monitorables_exec(i.company_type, &i.action_guidance.wait_for_events);
    let suggested = suggested_action_exec(&i.action_guidance.if_considering_entry);
    let final_view = final_view_exec(&i);
    let executive_blocks = if i.company_type.is_lender() {
        lender_blocks_exec(&i)
    } else {
        let e: Vec<(String, String)> = Vec::new();
        assert(blocks_view(e@) =~= Seq::<(Seq<char>, Seq<char>)>::empty());
        e
    };
    let mut valuation = i.historical_classification.clone();
    push_str(&mut valuation, " Peer read: ");
    push_str(&mut valuation, i.peer_value_read.as_str());
    let mut headline = i.company_name.clone();
    push_str(&mut headline, " — ");
    push_str(&mut headline, company_type_label(i.company_type));
    ResearchSummary {
        business_quality: i.profitability,
        growth: i.growth,
        valuation,
        technical_position: i.technical_position,
        key_risks: i.key_risks,
        final_view,
        key_positives: positives,
        key_negatives: negatives,
        key_monitorables: monitors,
        suggested_action: suggested,
        action_guidance: i.action_guidance,
        disclaimer: string_of(
            "Outputs are heuristic research support from Yahoo-derived data. Contingent liabilities, related-party loans, and auditor footnotes require manual annual report review. Not investment advice.",
        ),
        company_type_headline: headline,
        executive_blocks,
    }
}

} // verus!
