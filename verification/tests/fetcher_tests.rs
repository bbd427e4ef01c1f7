use stocker_core::fetcher::{
    dedup_news_by_link, fallback_peer_symbols, news_relevance_score, peer_search_query,
    select_search_peers, SearchQuote,
};
use stocker_core::models::NewsItem;

fn item(title: &str, link: &str, at: &str) -> NewsItem {
    NewsItem { title: title.to_string(), link: link.to_string(), published_at: at.to_string() }
}

fn quote(symbol: Option<&str>, quote_type: Option<&str>) -> SearchQuote {
    SearchQuote {
        symbol: symbol.map(|s| s.to_string()),
        quote_type: quote_type.map(|s| s.to_string()),
    }
}

#[test]
fn relevance_counts_tokens_and_results_words() {
    let tokens = vec!["RELIANCE".to_string(), String::new()];
    assert_eq!(news_relevance_score("Reliance Q2 results", &tokens), 3);
    assert_eq!(news_relevance_score("Market wrap", &tokens), 0);
    assert_eq!(news_relevance_score("Guidance raised", &[]), 1);
    let two = vec!["TCS".to_string(), "INFY".to_string()];
    assert_eq!(news_relevance_score("TCS and Infy earnings", &two), 5);
}

#[test]
fn fallback_peers_by_sector_without_subject() {
    let p = fallback_peer_symbols(
        "RELIANCE.NS",
        Some("Oil & Gas Refining & Marketing"),
        Some("Energy"),
        3,
    );
    assert_eq!(p, vec!["ONGC.NS", "IOC.NS", "BPCL.NS"]);
    let p = fallback_peer_symbols("reliance.ns", None, Some("Energy"), 2);
    assert_eq!(p, vec!["ONGC.NS", "IOC.NS"]);
    let p = fallback_peer_symbols("TCS.NS", Some("Information Technology Services"), None, 2);
    assert_eq!(p, vec!["HCLTECH.NS", "WIPRO.NS"]);
    assert!(fallback_peer_symbols("X.NS", None, None, 5).is_empty());
    assert!(fallback_peer_symbols("X.NS", None, Some("Energy"), 0).is_empty());
}

#[test]
fn peer_search_query_prefers_industry() {
    assert_eq!(peer_search_query(Some("Credit Services"), Some("Financial")).as_deref(), Some("Credit Services NSE India"));
    assert_eq!(peer_search_query(None, Some("Energy")).as_deref(), Some("Energy NSE India"));
    assert_eq!(peer_search_query(Some("Unknown"), Some("Energy")), None);
    assert_eq!(peer_search_query(Some(""), None), None);
    assert_eq!(peer_search_query(None, None), None);
}

#[test]
fn search_peers_keep_nse_equities_other_than_subject() {
    let quotes = vec![
        quote(Some("ONGC.NS"), Some("EQUITY")),
        quote(Some("reliance.ns"), Some("EQUITY")),
        quote(Some("X.BO"), Some("EQUITY")),
        quote(Some("IOC.NS"), Some("ETF")),
        quote(None, Some("EQUITY")),
        quote(Some("BPCL.NS"), Some("EQUITY")),
    ];
    assert_eq!(select_search_peers(&quotes, "RELIANCE.NS", 5), vec!["ONGC.NS", "BPCL.NS"]);
    assert_eq!(select_search_peers(&quotes, "RELIANCE.NS", 1), vec!["ONGC.NS"]);
    assert!(select_search_peers(&vec![], "RELIANCE.NS", 3).is_empty());
}

#[test]
fn news_dedup_keeps_first_of_each_link() {
    let items = vec![
        item("a", "l1", "1"),
        item("b", "", "2"),
        item("c", "l1", "3"),
        item("d", "", "4"),
        item("e", "l2", "5"),
    ];
    let kept: Vec<String> = dedup_news_by_link(items).into_iter().map(|n| n.title).collect();
    assert_eq!(kept, vec!["a", "b", "d", "e"]);
}
