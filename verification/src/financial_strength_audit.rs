//! Profile traits used by the financial-strength audit and the business lens, and the
//! action guidance drawn from the audit.

use vstd::prelude::*;

use crate::financial_company::opt_text;
use crate::models::{ActionGuidance, AssetProfile, AuditStatus};
use crate::text::{
    chars_eq_str, chars_of, contains_seq, contains_str, lower_chars, push_str, string_of,
    string_views, unicode_lower,
};

verus! {

/// Technology, communication, software, internet or IT-services profile.
pub open spec fn asset_light_profile(sector: Seq<char>, industry: Seq<char>) -> bool {
    contains_seq(sector, "technology"@) || contains_seq(sector, "communication"@) || contains_seq(
        industry,
        "software"@,
    ) || contains_seq(industry, "internet"@) || contains_seq(industry, "it services"@)
}

/// Financial sector, or a bank / NBFC / financial-services industry.
pub open spec fn bank_like_profile(sector: Seq<char>, industry: Seq<char>) -> bool {
    contains_seq(sector, "financial"@) || contains_seq(industry, "bank"@) || contains_seq(
        industry,
        "banks"@,
    ) || contains_seq(industry, "nbfc"@) || contains_seq(industry, "financial services"@)
}

fn lowered(o: &Option<String>) -> (r: Vec<char>)
    ensures
        r@ == unicode_lower(opt_text(*o)),
{
    let v = match o {
        Some(s) => chars_of(s.as_str()),
        None => Vec::new(),
    };
    lower_chars(v.as_slice())
}

/// The company runs an asset-light business (technology, software, internet, IT services).
pub fn is_asset_light(profile: &AssetProfile) -> (r: bool)
    ensures
        r == asset_light_profile(
            unicode_lower(opt_text(profile.sector)),
            unicode_lower(opt_text(profile.industry)),
        ),
{
    let sector = lowered(&profile.sector);
    let industry = lowered(&profile.industry);
    contains_str(sector.as_slice(), "technology") || contains_str(sector.as_slice(), "communication")
        || contains_str(industry.as_slice(), "software") || contains_str(
        industry.as_slice(),
        "internet",
    ) || contains_str(industry.as_slice(), "it services")
}

/// The profile reads like a bank or other financial company.
pub fn is_bank(profile: &AssetProfile) -> (r: bool)
    ensures
        r == bank_like_profile(
            unicode_lower(opt_text(profile.sector)),
            unicode_lower(opt_text(profile.industry)),
        ),
{
    let sector = lowered(&profile.sector);
    let industry = lowered(&profile.industry);
    contains_str(sector.as_slice(), "financial") || contains_str(industry.as_slice(), "bank")
        || contains_str(industry.as_slice(), "banks") || contains_str(industry.as_slice(), "nbfc")
        || contains_str(industry.as_slice(), "financial services")
}

// ---------------------------------------------------------------------------
// Action guidance
// ---------------------------------------------------------------------------

/// One financial-strength checklist item, as the guidance reads it.
#[derive(Debug)]
pub struct AuditCheck {
    pub metric: String,
    pub status: AuditStatus,
}

/// What the action guidance reads of the audit, the rating, the valuation and the market.
#[derive(Debug)]
pub struct GuidanceInputs {
    /// The audit checklist, in order.
    pub checklist: Vec<AuditCheck>,
    /// The audit's red flags.
    pub red_flags: Vec<String>,
    /// The earnings-quality score is below 45.
    pub earnings_quality_weak: bool,
    /// The balance-sheet score is below 45.
    pub balance_sheet_weak: bool,
    /// Overall financial strength is at least 65 and the rating's quality score at least 55.
    pub strong: bool,
    /// The overall rating score is at least 65.
    pub rating_at_least_65: bool,
    pub rating_label: String,
    pub valuation_label: String,
    /// Analysts' net bullish score for the latest month.
    pub analyst_net_bullish_score: i32,
    /// Insiders' net share transactions sum below zero.
    pub insider_net_selling: bool,
}

/// The checklist as (metric, status) pairs.
pub open spec fn checks_view(c: Seq<AuditCheck>) -> Seq<(Seq<char>, AuditStatus)> {
    c.map_values(|x: AuditCheck| (x.metric@, x.status))
}

/// The checklist tests the guidance makes.
#[derive(Clone, Copy)]
pub enum CheckTest {
    /// A GNPA % item (the audit is in banking mode).
    BankingMode,
    /// A failed GNPA %, NNPA % or PCR item.
    AssetQualityFail,
    /// A failed cumulative CFO / PAT (3Y) item.
    CashConversionFail,
    /// A failed debt / equity or interest coverage item.
    LeverageFail,
    /// A failed receivable days item.
    ReceivablesFail,
    /// An interest coverage item that did not pass.
    CoverageNotPassed,
}

/// The metric and status of a checklist item pass the test.
pub open spec fn check_matches(t: CheckTest, m: Seq<char>, s: AuditStatus) -> bool {
    match t {
        CheckTest::BankingMode => m == "GNPA %"@,
        CheckTest::AssetQualityFail => (m == "GNPA %"@ || m == "NNPA %"@ || contains_seq(m, "PCR"@))
            && s == AuditStatus::Fail,
        CheckTest::CashConversionFail => contains_seq(m, "Cumulative CFO / PAT (3Y)"@) && s
            == AuditStatus::Fail,
        CheckTest::LeverageFail => (m == "Debt / equity"@ || m == "Interest coverage"@) && s
            == AuditStatus::Fail,
        CheckTest::ReceivablesFail => m == "Receivable days"@ && s == AuditStatus::Fail,
        CheckTest::CoverageNotPassed => m == "Interest coverage"@ && s != AuditStatus::Pass,
    }
}

/// Some checklist item passes the test.
pub open spec fn any_check(c: Seq<(Seq<char>, AuditStatus)>, t: CheckTest) -> bool {
    exists|k: int| 0 <= k < c.len() && #[trigger] check_matches(t, c[k].0, c[k].1)
}

/// Earnings quality failed: in banking mode an asset-quality item failed; otherwise the
/// earnings-quality score is weak or the cumulative cash-conversion item failed.
pub open spec fn earnings_quality_failed(i: GuidanceInputs) -> bool {
    let c = checks_view(i.checklist@);
    if any_check(c, CheckTest::BankingMode) {
        any_check(c, CheckTest::AssetQualityFail)
    } else {
        i.earnings_quality_weak || any_check(c, CheckTest::CashConversionFail)
    }
}

/// The balance sheet failed: a weak score, or a failed leverage or coverage item.
pub open spec fn balance_sheet_failed(i: GuidanceInputs) -> bool {
    i.balance_sheet_weak || any_check(checks_view(i.checklist@), CheckTest::LeverageFail)
}

/// A red flag speaks of receivables or inventory draining working capital.
pub open spec fn working_capital_drain(i: GuidanceInputs) -> bool {
    exists|k: int|
        0 <= k < i.red_flags@.len() && (contains_seq(#[trigger] i.red_flags@[k]@, "Receivables"@)
            || contains_seq(i.red_flags@[k]@, "Inventory"@))
}

/// The valuation label speaks of an expensive stock or a value trap.
pub open spec fn valuation_expensive(label: Seq<char>) -> bool {
    contains_seq(label, "Expensive"@) || contains_seq(label, "Value Trap"@)
}

/// The valuation label is Cheap, Very Cheap or Fairly Valued.
pub open spec fn valuation_cheap(label: Seq<char>) -> bool {
    label == "Cheap"@ || label == "Very Cheap"@ || label == "Fairly Valued"@
}

/// `s` alone when `b` holds, else nothing.
pub open spec fn when(b: bool, s: Seq<char>) -> Seq<Seq<char>> {
    if b {
        seq![s]
    } else {
        Seq::empty()
    }
}

/// The events to wait for, before the default and the cap of five.
pub open spec fn wait_events_found(i: GuidanceInputs) -> Seq<Seq<char>> {
    let c = checks_view(i.checklist@);
    when(
        earnings_quality_failed(i),
        "Next quarterly results — confirm CFO ≥ PAT and working capital stable."@,
    ) + when(
        any_check(c, CheckTest::ReceivablesFail),
        "Receivable days declining for two consecutive quarters."@,
    ) + when(any_check(c, CheckTest::CoverageNotPassed), "Interest coverage recovering above 4x."@)
        + when(
        i.analyst_net_bullish_score < -2,
        "Analyst consensus shifting from Sell toward Hold or Buy."@,
    ) + when(i.insider_net_selling, "Insider net buying after recent selling period."@) + when(
        valuation_expensive(i.valuation_label@),
        "Valuation correction toward historical median P/E or EV/EBITDA."@,
    )
}

/// The events to wait for: those found, at most five, or a default check of the next results.
pub open spec fn wait_events(i: GuidanceInputs) -> Seq<Seq<char>> {
    let found = wait_events_found(i);
    if found.len() == 0 {
        seq!["Verify next quarterly results against this audit checklist."@]
    } else if found.len() > 5 {
        found.take(5)
    } else {
        found
    }
}

/// (if holding, if considering entry, the rationale this decision adds).
pub open spec fn guidance_decision(i: GuidanceInputs) -> (Seq<char>, Seq<char>, Seq<Seq<char>>) {
    let eq = earnings_quality_failed(i);
    let bs = balance_sheet_failed(i);
    let expensive = valuation_expensive(i.valuation_label@);
    if eq && (working_capital_drain(i) || bs) {
        ("Sell"@, "Avoid"@, seq!["Combined earnings quality and balance sheet stress."@])
    } else if eq || bs {
        ("Trim"@, "Avoid"@, Seq::empty())
    } else if i.strong && valuation_cheap(i.valuation_label@) && i.rating_at_least_65 {
        ("Hold"@, "Buy"@, seq!["Strong financial audit with supportive valuation."@])
    } else if i.strong && expensive {
        ("Hold"@, "Wait"@, seq!["Quality business but valuation is rich."@])
    } else if contains_seq(i.rating_label@, "Avoid"@) || expensive {
        ("Hold"@, "Wait"@, Seq::empty())
    } else if contains_seq(i.rating_label@, "Buy"@) {
        ("Hold"@, "Buy"@, Seq::empty())
    } else {
        ("Hold"@, "Wait"@, Seq::empty())
    }
}

/// The rationale bullets: the failed earnings-quality screen, then the decision's own.
pub open spec fn guidance_rationale(i: GuidanceInputs) -> Seq<Seq<char>> {
    when(
        earnings_quality_failed(i),
        "Earnings quality screen failed — profits may not convert to cash."@,
    ) + guidance_decision(i).2
}

/// The headline: both decisions and the financial-strength score out of 100.
pub open spec fn guidance_headline(i: GuidanceInputs, strength: Seq<char>) -> Seq<char> {
    "If holding: "@ + guidance_decision(i).0 + ". If considering entry: "@ + guidance_decision(i).1
        + ". Financial strength "@ + strength + "/100."@
}

fn any_check_exec(checks: &Vec<AuditCheck>, t: CheckTest) -> (r: bool)
    ensures
        r == any_check(checks_view(checks@), t),
{
    let ghost c = checks_view(checks@);
    let mut k: usize = 0;
    while k < checks.len()
        invariant
            0 <= k <= checks.len(),
            c == checks_view(checks@),
            forall|j: int| 0 <= j < k ==> !#[trigger] check_matches(t, c[j].0, c[j].1),
        decreases checks.len() - k,
    {
        let m = chars_of(checks[k].metric.as_str());
        let st = checks[k].status;
        let hit = match t {
            CheckTest::BankingMode => chars_eq_str(m.as_slice(), "GNPA %"),
            CheckTest::AssetQualityFail => (chars_eq_str(m.as_slice(), "GNPA %") || chars_eq_str(
                m.as_slice(),
                "NNPA %",
            ) || contains_str(m.as_slice(), "PCR")) && st == AuditStatus::Fail,
            CheckTest::CashConversionFail => contains_str(m.as_slice(), "Cumulative CFO / PAT (3Y)")
                && st == AuditStatus::Fail,
            CheckTest::LeverageFail => (chars_eq_str(m.as_slice(), "Debt / equity") || chars_eq_str(
                m.as_slice(),
                "Interest coverage",
            )) && st == AuditStatus::Fail,
            CheckTest::ReceivablesFail => chars_eq_str(m.as_slice(), "Receivable days") && st
                == AuditStatus::Fail,
            CheckTest::CoverageNotPassed => chars_eq_str(m.as_slice(), "Interest coverage") && st
                != AuditStatus::Pass,
        };
        assert(c[k as int] == (checks@[k as int].metric@, checks@[k as int].status));
        if hit {
            assert(check_matches(t, c[k as int].0, c[k as int].1));
            return true;
        }
        k = k + 1;
    }
    false
}

fn working_capital_drain_exec(i: &GuidanceInputs) -> (r: bool)
    ensures
        r == working_capital_drain(*i),
{
    let mut k: usize = 0;
    while k < i.red_flags.len()
        invariant
            0 <= k <= i.red_flags.len(),
            forall|j: int|
                0 <= j < k ==> !(contains_seq(#[trigger] i.red_flags@[j]@, "Receivables"@)
                    || contains_seq(i.red_flags@[j]@, "Inventory"@)),
        decreases i.red_flags.len() - k,
    {
        let f = chars_of(i.red_flags[k].as_str());
        if contains_str(f.as_slice(), "Receivables") || contains_str(f.as_slice(), "Inventory") {
            return true;
        }
        k = k + 1;
    }
    false
}

fn earnings_quality_failed_exec(i: &GuidanceInputs) -> (r: bool)
    ensures
        r == earnings_quality_failed(*i),
{
    if any_check_exec(&i.checklist, CheckTest::BankingMode) {
        any_check_exec(&i.checklist, CheckTest::AssetQualityFail)
    } else {
        i.earnings_quality_weak || any_check_exec(&i.checklist, CheckTest::CashConversionFail)
    }
}

/// The audit's risk flags: earnings quality failed, balance sheet failed, working capital drain.
fn audit_risk_flags(i: &GuidanceInputs) -> (r: (bool, bool, bool))
    ensures
        r == (earnings_quality_failed(*i), balance_sheet_failed(*i), working_capital_drain(*i)),
{
    let eq_fail = earnings_quality_failed_exec(i);
    let bs_fail = i.balance_sheet_weak || any_check_exec(&i.checklist, CheckTest::LeverageFail);
    (eq_fail, bs_fail, working_capital_drain_exec(i))
}

pub(crate) fn push_when(v: &mut Vec<String>, b: bool, s: &str)
    ensures
        string_views(final(v)@) == string_views(old(v)@) + when(b, s@),
{
    let ghost before = string_views(v@);
    if b {
        v.push(string_of(s));
        assert(string_views(v@) =~= before + when(b, s@));
    } else {
        assert(string_views(v@) =~= before + when(b, s@));
    }
}

/// The events found to wait for, and the earnings-quality rationale.
fn guidance_from_audit_status(i: &GuidanceInputs, eq_fail: bool, expensive: bool) -> (r: (
    Vec<String>,
    Vec<String>,
))
    requires
        eq_fail == earnings_quality_failed(*i),
        expensive == valuation_expensive(i.valuation_label@),
    ensures
        string_views(r.0@) == wait_events_found(*i),
        string_views(r.1@) == when(
            eq_fail,
            "Earnings quality screen failed — profits may not convert to cash."@,
        ),
{
    let mut v: Vec<String> = Vec::new();
    let mut rationale: Vec<String> = Vec::new();
    assert(string_views(v@) =~= Seq::<Seq<char>>::empty());
    assert(string_views(rationale@) =~= Seq::<Seq<char>>::empty());
    push_when(&mut v, eq_fail, "Next quarterly results — confirm CFO ≥ PAT and working capital stable.");
    push_when(
        &mut rationale,
        eq_fail,
        "Earnings quality screen failed — profits may not convert to cash.",
    );
    push_when(
        &mut v,
        any_check_exec(&i.checklist, CheckTest::ReceivablesFail),
        "Receivable days declining for two consecutive quarters.",
    );
    push_when(
        &mut v,
        any_check_exec(&i.checklist, CheckTest::CoverageNotPassed),
        "Interest coverage recovering above 4x.",
    );
    push_when(
        &mut v,
        i.analyst_net_bullish_score < -2,
        "Analyst consensus shifting from Sell toward Hold or Buy.",
    );
    push_when(&mut v, i.insider_net_selling, "Insider net buying after recent selling period.");
    push_when(
        &mut v,
        expensive,
        "Valuation correction toward historical median P/E or EV/EBITDA.",
    );
    assert(string_views(v@) =~= wait_events_found(*i));
    (v, rationale)
}

/// What to do when holding the stock or considering entry, the events to wait for and the
/// reasons, drawn from the audit, the rating, the valuation and the market. `strength`
/// is the overall financial-strength score as displayed in the headline.
pub fn build_action_guidance(i: &GuidanceInputs, strength: &str) -> (r: ActionGuidance)
    ensures
        r.if_holding@ == guidance_decision(*i).0,
        r.if_considering_entry@ == guidance_decision(*i).1,
        string_views(r.wait_for_events@) == wait_events(*i),
        string_views(r.rationale_bullets@) == guidance_rationale(*i),
        r.headline@ == guidance_headline(*i, strength@),
{
    let (eq_fail, bs_fail, wc_drain) = audit_risk_flags(i);
    let label = chars_of(i.valuation_label.as_str());
    let expensive = contains_str(label.as_slice(), "Expensive") || contains_str(
        label.as_slice(),
        "Value Trap",
    );
    let cheap = chars_eq_str(label.as_slice(), "Cheap") || chars_eq_str(label.as_slice(), "Very Cheap")
        || chars_eq_str(label.as_slice(), "Fairly Valued");
    let rating = chars_of(i.rating_label.as_str());
    let (mut wait_for_events, mut rationale) = guidance_from_audit_status(i, eq_fail, expensive);
    let (holding, entry) = if eq_fail && (wc_drain || bs_fail) {
        rationale.push(string_of("Combined earnings quality and balance sheet stress."));
        ("Sell", "Avoid")
    } else if eq_fail || bs_fail {
        ("Trim", "Avoid")
    } else if i.strong && cheap && i.rating_at_least_65 {
        rationale.push(string_of("Strong financial audit with supportive valuation."));
        ("Hold", "Buy")
    } else if i.strong && expensive {
        rationale.push(string_of("Quality business but valuation is rich."));
        ("Hold", "Wait")
    } else if contains_str(rating.as_slice(), "Avoid") || expensive {
        ("Hold", "Wait")
    } else if contains_str(rating.as_slice(), "Buy") && !eq_fail {
        ("Hold", "Buy")
    } else {
        ("Hold", "Wait")
    };
    assert(string_views(rationale@) =~= guidance_rationale(*i));
    if wait_for_events.len() == 0 {
        wait_for_events.push(
            string_of("Verify next quarterly results against this audit checklist."),
        );
        assert(string_views(wait_for_events@) =~= wait_events(*i));
    } else if wait_for_events.len() > 5 {
        wait_for_events.truncate(5);
        assert(string_views(wait_for_events@) =~= wait_events(*i));
    }
    let mut headline = string_of("If holding: ");
    push_str(&mut headline, holding);
    push_str(&mut headline, ". If considering entry: ");
    push_str(&mut headline, entry);
    push_str(&mut headline, ". Financial strength ");
    push_str(&mut headline, strength);
    push_str(&mut headline, "/100.");
    ActionGuidance {
        if_holding: string_of(holding),
        if_considering_entry: string_of(entry),
        wait_for_events,
        headline,
        rationale_bullets: rationale,
    }
}

} // verus!
