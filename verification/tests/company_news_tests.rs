use stocker_core::company_news::{
    company_news_queries, fallback_news_queries, merge_fallback_batch, needs_news_fallback,
    news_tokens, rank_company_news, sector_news_queries,
};
use stocker_core::models::NewsItem;

fn item(title: &str, link: &str, at: &str) -> NewsItem {
    NewsItem { title: title.to_string(), link: link.to_string(), published_at: at.to_string() }
}

#[test]
fn company_queries_in_order() {
    let q = company_news_queries(
        "RELIANCE.NS",
        Some(" Reliance Industries "),
        Some("Energy"),
        Some("Oil & Gas Refining & Marketing"),
    );
    assert_eq!(
        q,
        vec![
            "RELIANCE NSE India stock earnings",
            "RELIANCE NSE India quarterly results",
            "Reliance Industries India stock",
            "Reliance Industries earnings guidance India",
            "Oil & Gas Refining & Marketing India stock sector news",
            "Energy India NSE sector news",
        ]
    );
    let q = company_news_queries("tcs.ns.NS", Some("  "), None, None);
    assert_eq!(q, vec!["TCS.NS NSE India stock earnings", "TCS.NS NSE India quarterly results"]);
}

#[test]
fn fallback_and_sector_queries() {
    let q = fallback_news_queries("RELIANCE.NS", Some("Reliance Industries"), Some("Energy"), Some("Oil & Gas"));
    assert_eq!(
        q,
        vec![
            "Reliance Industries NSE India",
            "Oil & Gas India listed companies",
            "Energy India market news",
            "RELIANCE NSE India",
        ]
    );
    assert_eq!(fallback_news_queries("INFY.NS", None, None, None), vec!["INFY NSE India"]);
    assert_eq!(
        sector_news_queries(" Banks "),
        vec!["Banks India sector news", "Banks India listed companies", "Banks NSE BSE market updates"]
    );
}

#[test]
fn tokens_from_long_words() {
    let t = news_tokens(
        "RELIANCE.NS",
        Some("Reliance Industries Ltd."),
        Some("Oil & Gas Refining & Marketing"),
        Some("Energy"),
    );
    assert_eq!(t, vec!["RELIANCE", "RELIANCE", "INDUSTRIES", "REFINING", "MARKETING", "ENERGY"]);
    assert_eq!(news_tokens("SBIN.NS", None, None, None), vec!["SBIN"]);
    assert_eq!(news_tokens("X.NS", Some("(Bank)  Éa"), None, None), vec!["X", "BANK"]);
    assert_eq!(news_tokens("X.NS", Some("Éaé"), None, None), vec!["X", "ÉAÉ"]);
}

#[test]
fn ranking_by_relevance_then_time_then_order() {
    let items = vec![
        item("TCS results beat", "a", "1700000100"),
        item("Market wrap", "b", "1700000200"),
        item("TCS shares rise", "c", "1700000300"),
        item("TCS quarterly earnings", "d", "1700000050"),
        item("tcs Q2 results", "e", "1700000100"),
    ];
    let tokens = vec!["TCS".to_string()];
    let ranked: Vec<String> = rank_company_news(items, &tokens, 10).into_iter().map(|n| n.link).collect();
    assert_eq!(ranked, vec!["a", "e", "d", "c"]);
    let items = vec![
        item("TCS results beat", "a", "1700000100"),
        item("TCS quarterly earnings", "d", "1700000050"),
        item("tcs Q2 results", "e", "1700000100"),
    ];
    let top: Vec<String> = rank_company_news(items, &tokens, 2).into_iter().map(|n| n.link).collect();
    assert_eq!(top, vec!["a", "e"]);
    assert!(rank_company_news(vec![item("Market wrap", "b", "1")], &tokens, 5).is_empty());
}

#[test]
fn fallback_when_fewer_than_half() {
    assert!(needs_news_fallback(1, 6));
    assert!(!needs_news_fallback(3, 6));
    assert!(!needs_news_fallback(0, 1));
}

#[test]
fn fallback_batches_merge_until_enough() {
    let mut acc = Vec::new();
    let done = merge_fallback_batch(&mut acc, vec![item("x", "l1", "1"), item("y", "l1", "2")], 3);
    assert!(!done);
    assert_eq!(acc.len(), 1);
    let done = merge_fallback_batch(
        &mut acc,
        vec![item("z", "", "3"), item("w", "l1", "4"), item("v", "l2", "5"), item("u", "l3", "6")],
        3,
    );
    assert!(done);
    let titles: Vec<String> = acc.into_iter().map(|n| n.title).collect();
    assert_eq!(titles, vec!["x", "z", "v"]);
}
