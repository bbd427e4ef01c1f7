//! Properties of the library's decisions, stated from what each operation is for:
//! the action a failed audit calls for, which table belongs to a page section, how
//! the moving-average line reads its flags, which peers a company type gets, and
//! when a company is an exchange.

use vstd::prelude::*;

use crate::financial_company::{
    bank_reference_peers, classify_lowered, curated_list, housing_finance_peers, lender_type,
    nbfc_peers, peers_other_than, project_finance_peers, ticker_base_of,
};
use crate::financial_strength_audit::{
    any_check, balance_sheet_failed, check_matches, checks_view, earnings_quality_failed,
    guidance_decision, guidance_rationale, working_capital_drain, CheckTest, GuidanceInputs,
};
use crate::models::{AuditStatus, FinancialCompanyType, TechnicalState};
use crate::research_summary::{dma_phrase, position_phrases, technical_position_text};
use crate::screener_in::section_table;
use crate::text::{contains_seq, find_from, join_seqs, lemma_find_from_some, occurs_at};

verus! {

// ---------------------------------------------------------------------------
// Action guidance
// ---------------------------------------------------------------------------

/// When the earnings-quality screen and the balance-sheet screen both failed, a holder
/// is told to sell and a newcomer to stay away, whatever the red flags say about
/// working capital; the reasons given are the failed earnings screen and the combined
/// stress, in that order.
pub proof fn law_earnings_and_balance_sheet_failure_means_sell(i: GuidanceInputs)
    requires
        earnings_quality_failed(i),
        balance_sheet_failed(i),
    ensures
        guidance_decision(i).0 == "Sell"@,
        guidance_decision(i).1 == "Avoid"@,
        guidance_rationale(i) == seq![
            "Earnings quality screen failed — profits may not convert to cash."@,
            "Combined earnings quality and balance sheet stress."@,
        ],
{
    assert(guidance_rationale(i) =~= seq![
        "Earnings quality screen failed — profits may not convert to cash."@,
        "Combined earnings quality and balance sheet stress."@,
    ]);
}

/// The audit screens decide the holding: a failed screen always means "Avoid" for a
/// newcomer; a failed earnings screen with a failed balance sheet or a working-capital
/// drain means "Sell", any other failure "Trim"; with both screens passed a holder is
/// told to hold.
pub proof fn law_audit_screens_decide_the_holding(i: GuidanceInputs)
    ensures
        earnings_quality_failed(i) || balance_sheet_failed(i) ==> guidance_decision(i).1
            == "Avoid"@,
        earnings_quality_failed(i) && (balance_sheet_failed(i) || working_capital_drain(i))
            ==> guidance_decision(i).0 == "Sell"@,
        (earnings_quality_failed(i) || balance_sheet_failed(i)) && !(earnings_quality_failed(i)
            && (balance_sheet_failed(i) || working_capital_drain(i))) ==> guidance_decision(i).0
            == "Trim"@,
        !(earnings_quality_failed(i) || balance_sheet_failed(i)) ==> guidance_decision(i).0
            == "Hold"@,
{
}

proof fn lemma_contains_itself(s: Seq<char>)
    ensures
        contains_seq(s, s),
{
    assert(s.subrange(0, s.len() as int) =~= s);
    assert(occurs_at(s, s, 0));
}

/// Read from the checklist itself: outside banking mode (no GNPA item), a failed
/// three-year cash-conversion item together with a failed debt / equity or interest
/// coverage item means "Sell" for a holder and "Avoid" for a newcomer, with the
/// combined stress as the last reason.
pub proof fn law_failed_cash_conversion_and_leverage_means_sell(i: GuidanceInputs, a: int, b: int)
    requires
        forall|k: int| 0 <= k < i.checklist@.len() ==> i.checklist@[k].metric@ != "GNPA %"@,
        0 <= a < i.checklist@.len(),
        i.checklist@[a].metric@ == "Cumulative CFO / PAT (3Y)"@,
        i.checklist@[a].status == AuditStatus::Fail,
        0 <= b < i.checklist@.len(),
        i.checklist@[b].metric@ == "Debt / equity"@ || i.checklist@[b].metric@
            == "Interest coverage"@,
        i.checklist@[b].status == AuditStatus::Fail,
    ensures
        guidance_decision(i).0 == "Sell"@,
        guidance_decision(i).1 == "Avoid"@,
        guidance_rationale(i).last() == "Combined earnings quality and balance sheet stress."@,
{
    lemma_contains_itself("Cumulative CFO / PAT (3Y)"@);
    let c = checks_view(i.checklist@);
    assert(c[a] == (i.checklist@[a].metric@, i.checklist@[a].status));
    assert(c[b] == (i.checklist@[b].metric@, i.checklist@[b].status));
    assert(check_matches(CheckTest::CashConversionFail, c[a].0, c[a].1));
    assert(check_matches(CheckTest::LeverageFail, c[b].0, c[b].1));
    assert(!any_check(c, CheckTest::BankingMode)) by {
        assert forall|k: int| 0 <= k < c.len() implies !#[trigger] check_matches(
            CheckTest::BankingMode,
            c[k].0,
            c[k].1,
        ) by {
            assert(c[k].0 == i.checklist@[k].metric@);
        }
    }
    assert(earnings_quality_failed(i));
    assert(balance_sheet_failed(i));
    law_earnings_and_balance_sheet_failure_means_sell(i);
}

// ---------------------------------------------------------------------------
// Screener.in sections
// ---------------------------------------------------------------------------

/// The attribute that marks a page section.
pub open spec fn section_marker(section_id: Seq<char>) -> Seq<char> {
    "id=\""@ + section_id + "\""@
}

/// A section's table is the first data table at or after the section's first marker
/// (never one that comes before the marker), running to the first `</table>` after
/// its start; and a table is found whenever the page has such a marker, table and end.
pub proof fn law_section_table_follows_its_marker(html: Seq<char>, section_id: Seq<char>)
    ensures
        section_table(html, section_id) matches Some(t) ==> exists|s: int, k: int, e: int|
            {
                &&& occurs_at(html, section_marker(section_id), s)
                &&& forall|j: int| 0 <= j < s ==> !occurs_at(html, section_marker(section_id), j)
                &&& s <= k && occurs_at(html, "<table class=\"data-table"@, k)
                &&& forall|j: int| s <= j < k ==> !occurs_at(html, "<table class=\"data-table"@, j)
                &&& k <= e && occurs_at(html, "</table>"@, e)
                &&& forall|j: int| k <= j < e ==> !occurs_at(html, "</table>"@, j)
                &&& t == html.subrange(k, e + 8)
            },
        (exists|s: int, k: int, e: int|
            occurs_at(html, section_marker(section_id), s) && s <= k && occurs_at(
                html,
                "<table class=\"data-table"@,
                k,
            ) && k <= e && occurs_at(html, "</table>"@, e)) ==> section_table(html, section_id)
            is Some,
{
    let m = section_marker(section_id);
    let tm = "<table class=\"data-table"@;
    let close = "</table>"@;
    reveal_strlit("</table>");
    assert(close.len() == 8);
    lemma_find_from_some(html, m, 0);
    match find_from(html, m, 0) {
        Some(s) => {
            lemma_find_from_some(html, tm, s);
            match find_from(html, tm, s) {
                Some(k) => {
                    lemma_find_from_some(html, close, k);
                },
                None => {},
            }
        },
        None => {},
    }
    if exists|s: int, k: int, e: int|
        occurs_at(html, m, s) && s <= k && occurs_at(html, tm, k) && k <= e && occurs_at(
            html,
            close,
            e,
        ) {
        let (s, k, e) = choose|s: int, k: int, e: int|
            occurs_at(html, m, s) && s <= k && occurs_at(html, tm, k) && k <= e && occurs_at(
                html,
                close,
                e,
            );
        let s0 = find_from(html, m, 0)->0;
        assert(s0 <= s);
        let k0 = find_from(html, tm, s0)->0;
        assert(k0 <= k);
        lemma_find_from_some(html, close, k0);
    }
}

// ---------------------------------------------------------------------------
// Technical position
// ---------------------------------------------------------------------------

/// "above" for a price above the average, "below" otherwise.
pub open spec fn side(above: bool) -> Seq<char> {
    if above {
        "above"@
    } else {
        "below"@
    }
}

/// The moving-average phrase reads each flag as it is: a known 50-day flag is named
/// with its own side, a known 200-day flag likewise, and when both lie on the same
/// side they are named together; without either flag there is no phrase. The
/// technical sentence opens with that phrase.
pub proof fn law_dma_phrase_reads_the_flags(st: TechnicalState, rsi_known: bool, rsi_label: Seq<char>)
    ensures
        ({
            let p = dma_phrase(st.above_dma50, st.above_dma200);
            match (st.above_dma50, st.above_dma200) {
                (Some(x), Some(y)) => if x == y {
                    p == Some("Price is "@ + side(x) + " both 50 and 200 DMA"@)
                } else {
                    p == Some("Price is "@ + side(x) + " 50 DMA and "@ + side(y) + " 200 DMA"@)
                },
                (Some(x), None) => p == Some("Price is "@ + side(x) + " 50 DMA"@),
                (None, Some(y)) => p == Some("Price is "@ + side(y) + " 200 DMA"@),
                (None, None) => p is None,
            }
        }),
        dma_phrase(st.above_dma50, st.above_dma200) matches Some(p) ==> technical_position_text(
            st,
            rsi_known,
            rsi_label,
        ).take(p.len() as int) == p,
{
    reveal_strlit("Price is ");
    reveal_strlit("above");
    reveal_strlit("below");
    reveal_strlit(" both 50 and 200 DMA");
    reveal_strlit(" 50 DMA and ");
    reveal_strlit(" 200 DMA");
    reveal_strlit(" 50 DMA");
    reveal_strlit("Price is above both 50 and 200 DMA");
    reveal_strlit("Price is above 50 DMA and below 200 DMA");
    reveal_strlit("Price is below 50 DMA and above 200 DMA");
    reveal_strlit("Price is below both 50 and 200 DMA");
    reveal_strlit("Price is above 50 DMA");
    reveal_strlit("Price is below 50 DMA");
    reveal_strlit("Price is above 200 DMA");
    reveal_strlit("Price is below 200 DMA");
    match (st.above_dma50, st.above_dma200) {
        (Some(true), Some(true)) => {
            assert("Price is "@ + side(true) + " both 50 and 200 DMA"@
                =~= "Price is above both 50 and 200 DMA"@);
        },
        (Some(false), Some(false)) => {
            assert("Price is "@ + side(false) + " both 50 and 200 DMA"@
                =~= "Price is below both 50 and 200 DMA"@);
        },
        (Some(true), Some(false)) => {
            assert("Price is "@ + side(true) + " 50 DMA and "@ + side(false) + " 200 DMA"@
                =~= "Price is above 50 DMA and below 200 DMA"@);
        },
        (Some(false), Some(true)) => {
            assert("Price is "@ + side(false) + " 50 DMA and "@ + side(true) + " 200 DMA"@
                =~= "Price is below 50 DMA and above 200 DMA"@);
        },
        (Some(true), None) => {
            assert("Price is "@ + side(true) + " 50 DMA"@ =~= "Price is above 50 DMA"@);
        },
        (Some(false), None) => {
            assert("Price is "@ + side(false) + " 50 DMA"@ =~= "Price is below 50 DMA"@);
        },
        (None, Some(true)) => {
            assert("Price is "@ + side(true) + " 200 DMA"@ =~= "Price is above 200 DMA"@);
        },
        (None, Some(false)) => {
            assert("Price is "@ + side(false) + " 200 DMA"@ =~= "Price is below 200 DMA"@);
        },
        (None, None) => {},
    }
    match dma_phrase(st.above_dma50, st.above_dma200) {
        Some(p) => {
            let parts = position_phrases(st, rsi_known, rsi_label);
            assert(parts.len() > 0 && parts[0] == p);
            lemma_join_starts_with_first(parts, "; "@);
            let text = technical_position_text(st, rsi_known, rsi_label);
            assert(text == join_seqs(parts, "; "@) + "."@);
            assert(text.take(p.len() as int) =~= join_seqs(parts, "; "@).take(p.len() as int));
        },
        None => {},
    }
}

/// A joined list starts with its first part.
proof fn lemma_join_starts_with_first(parts: Seq<Seq<char>>, sep: Seq<char>)
    requires
        parts.len() > 0,
    ensures
        join_seqs(parts, sep).len() >= parts[0].len(),
        join_seqs(parts, sep).take(parts[0].len() as int) == parts[0],
    decreases parts.len(),
{
    if parts.len() > 1 {
        lemma_join_starts_with_first(parts.drop_last(), sep);
        let j = join_seqs(parts.drop_last(), sep);
        assert(parts.drop_last()[0] == parts[0]);
        assert((j + sep + parts.last()).take(parts[0].len() as int) =~= j.take(
            parts[0].len() as int,
        ));
    } else {
        assert(parts[0].take(parts[0].len() as int) =~= parts[0]);
    }
}

// ---------------------------------------------------------------------------
// Curated peers
// ---------------------------------------------------------------------------

/// A name is kept when its ticker base differs from the subject's: every kept name
/// comes from the list, and every name of the list with another base is kept.
proof fn lemma_peers_membership(list: Seq<Seq<char>>, base: Seq<char>, x: Seq<char>)
    ensures
        peers_other_than(list, base).contains(x) <==> (list.contains(x) && ticker_base_of(x)
            != base),
    decreases list.len(),
{
    if list.len() > 0 {
        lemma_peers_membership(list.drop_last(), base, x);
        let rest = peers_other_than(list.drop_last(), base);
        let r = peers_other_than(list, base);
        if r.contains(x) {
            let k = choose|k: int| 0 <= k < r.len() && r[k] == x;
            if k < rest.len() {
                assert(rest[k] == x);
                assert(rest.contains(x));
                let w = choose|w: int| 0 <= w < list.drop_last().len() && list.drop_last()[w] == x;
                assert(list[w] == x);
            } else {
                assert(list[list.len() - 1] == x);
            }
        }
        if list.contains(x) && ticker_base_of(x) != base {
            let w = choose|w: int| 0 <= w < list.len() && list[w] == x;
            if w < list.len() - 1 {
                assert(list.drop_last()[w] == x);
                assert(rest.contains(x));
                let k = choose|k: int| 0 <= k < rest.len() && rest[k] == x;
                assert(r[k] == x);
            } else {
                assert(r[r.len() - 1] == x);
            }
        }
    }
}

/// The reference names each lender type is compared with: housing-finance names for
/// housing-finance companies, NBFC names for NBFCs, project-finance names for
/// project-finance lenders and bank names for banks; other types get none.
pub open spec fn reference_names(t: FinancialCompanyType) -> Seq<Seq<char>> {
    if t == FinancialCompanyType::HousingFinance {
        housing_finance_peers()
    } else if t == FinancialCompanyType::Nbfc {
        nbfc_peers()
    } else if t == FinancialCompanyType::NbfcProjectFinance {
        project_finance_peers()
    } else if t == FinancialCompanyType::Bank {
        bank_reference_peers()
    } else {
        Seq::empty()
    }
}

/// A company's curated peers are the reference names of its own type without the
/// company itself, in the reference order: a name is a peer exactly when it is a
/// reference name of that type with another ticker base. So a housing-finance
/// company is only ever compared with housing-finance names.
pub proof fn law_curated_peers_follow_company_type(
    symbol: Seq<char>,
    t: FinancialCompanyType,
    x: Seq<char>,
)
    ensures
        peers_other_than(curated_list(t), ticker_base_of(symbol)) == peers_other_than(
            reference_names(t),
            ticker_base_of(symbol),
        ),
        peers_other_than(curated_list(t), ticker_base_of(symbol)).contains(x) <==> (
        reference_names(t).contains(x) && ticker_base_of(x) != ticker_base_of(symbol)),
        t == FinancialCompanyType::HousingFinance && peers_other_than(
            curated_list(t),
            ticker_base_of(symbol),
        ).contains(x) ==> housing_finance_peers().contains(x),
{
    assert(curated_list(t) == reference_names(t));
    lemma_peers_membership(reference_names(t), ticker_base_of(symbol), x);
}

// ---------------------------------------------------------------------------
// Exchanges
// ---------------------------------------------------------------------------

/// A profile whose industry names an exchange, and which names neither insurance nor
/// asset or investment management, is classified as an exchange, whatever its ticker,
/// and so is never scored as a lender.
pub proof fn law_exchange_industry_is_an_exchange(
    base: Seq<char>,
    sector: Seq<char>,
    industry: Seq<char>,
    summary: Seq<char>,
    name: Seq<char>,
)
    requires
        contains_seq(industry, "exchange"@),
        !contains_seq(industry, "insurance"@),
        !contains_seq(sector, "insurance"@),
        !contains_seq(industry, "asset management"@),
        !contains_seq(industry, "investment management"@),
    ensures
        classify_lowered(base, sector, industry, summary, name) == FinancialCompanyType::Exchange,
        !lender_type(classify_lowered(base, sector, industry, summary, name)),
{
}

} // verus!
