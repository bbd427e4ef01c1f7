use stocker_core::provider_search::{
    asset_profile_from_answer, check_quote_summary, crumb_from_response, news_from_search_answer,
    news_search_url, peer_search_url, peers_from_search_answer, quote_summary_url,
    search_answer_quotes,
};

#[test]
fn urls_percent_encode_their_parameters() {
    assert_eq!(
        peer_search_url("Oil & Gas NSE India"),
        "https://query2.finance.yahoo.com/v1/finance/search?q=Oil%20%26%20Gas%20NSE%20India&quotesCount=25&newsCount=0"
    );
    assert_eq!(
        news_search_url("TCS NSE India", 12),
        "https://query2.finance.yahoo.com/v1/finance/search?q=TCS%20NSE%20India&newsCount=12"
    );
    assert_eq!(
        quote_summary_url("M&M.NS", "assetProfile,price", Some("a/b")),
        "https://query2.finance.yahoo.com/v10/finance/quoteSummary/M%26M.NS?modules=assetProfile,price&crumb=a%2Fb"
    );
    assert_eq!(
        quote_summary_url("TCS.NS", "price", None),
        "https://query2.finance.yahoo.com/v10/finance/quoteSummary/TCS.NS?modules=price"
    );
    assert_eq!(
        news_search_url("é~_-.", 0),
        "https://query2.finance.yahoo.com/v1/finance/search?q=%C3%A9~_-.&newsCount=0"
    );
}

#[test]
fn crumb_is_trimmed_and_error_pages_refused() {
    assert_eq!(crumb_from_response("  abc123 \n").as_deref(), Some("abc123"));
    assert_eq!(crumb_from_response("{\"finance\":{}}"), None);
    assert_eq!(crumb_from_response("<html>"), None);
    assert_eq!(crumb_from_response("   "), None);
}

const QUOTES: &str = r#"{"quotes":[
 {"symbol":"ONGC.NS","quoteType":"EQUITY"},
 {"symbol":"RELIANCE.NS","quoteType":"EQUITY"},
 {"symbol":"X.BO","quoteType":"EQUITY"},
 {"symbol":"IOC.NS","quoteType":"ETF"},
 {"quoteType":"EQUITY"},
 {"symbol":"BPCL.NS","quoteType":"EQUITY"}]}"#;

#[test]
fn search_answer_quotes_are_read_in_order() {
    let q = search_answer_quotes(QUOTES).unwrap();
    assert_eq!(q.len(), 6);
    assert_eq!(q[0].symbol.as_deref(), Some("ONGC.NS"));
    assert_eq!(q[3].quote_type.as_deref(), Some("ETF"));
    assert_eq!(q[4].symbol, None);
    assert!(search_answer_quotes("{\"news\":[]}").is_none());
    assert!(search_answer_quotes("not json").is_none());
}

#[test]
fn peers_from_answer_or_curated_fallback() {
    let p = peers_from_search_answer(Some(QUOTES), "RELIANCE.NS", Some("Oil"), Some("Energy"), 5);
    assert_eq!(p, vec!["ONGC.NS", "BPCL.NS"]);
    let p = peers_from_search_answer(Some("{\"quotes\":[]}"), "RELIANCE.NS", None, Some("Energy"), 2);
    assert_eq!(p, vec!["ONGC.NS", "IOC.NS"]);
    assert!(peers_from_search_answer(None, "RELIANCE.NS", None, Some("Energy"), 2).is_empty());
    assert!(peers_from_search_answer(Some("oops"), "RELIANCE.NS", None, Some("Energy"), 2).is_empty());
}

#[test]
fn news_answer_items_with_defaults() {
    let text = r#"{"news":[{"title":"A","link":"l1","providerPublishTime":1700000000},{"title":"B"},{"link":"x","providerPublishTime":-5}]}"#;
    let n = news_from_search_answer(Some(text));
    assert_eq!(n.len(), 3);
    assert_eq!((n[0].title.as_str(), n[0].link.as_str(), n[0].published_at.as_str()), ("A", "l1", "1700000000"));
    assert_eq!((n[1].title.as_str(), n[1].link.as_str(), n[1].published_at.as_str()), ("B", "", ""));
    assert_eq!((n[2].title.as_str(), n[2].published_at.as_str()), ("", "-5"));
    assert!(news_from_search_answer(None).is_empty());
    assert!(news_from_search_answer(Some("{}")).is_empty());
}

#[test]
fn quote_summary_refusals() {
    let err = r#"{"quoteSummary":{"result":null,"error":{"code":"Not Found","description":"No data found"}}}"#;
    assert_eq!(check_quote_summary(err).unwrap_err(), "Yahoo quoteSummary error [Not Found]: No data found");
    let half = r#"{"quoteSummary":{"result":[{}],"error":{"description":"boom"}}}"#;
    assert_eq!(check_quote_summary(half).unwrap_err(), "Yahoo quoteSummary error [UnknownCode]: boom");
    let empty = r#"{"quoteSummary":{"result":null,"error":null}}"#;
    assert_eq!(check_quote_summary(empty).unwrap_err(), "Yahoo quoteSummary returned empty result");
    assert_eq!(check_quote_summary("nope").unwrap_err(), "Yahoo quoteSummary answer is not JSON");
    assert!(check_quote_summary(r#"{"quoteSummary":{"result":[{}],"error":null}}"#).is_ok());
}

const PROFILE: &str = r#"{"quoteSummary":{"result":[{"assetProfile":{"sector":"Energy","industry":"Oil & Gas Refining & Marketing","longBusinessSummary":"Refining, retail and digital.","website":"https://ril.com","country":"India","longName":"Profile Name"},"price":{"shortName":"RIL","exchange":"NSI","currency":"INR"}}],"error":null}}"#;

#[test]
fn asset_profile_fields_and_normalized_exchange() {
    let p = asset_profile_from_answer("RELIANCE.NS", PROFILE);
    assert_eq!(p.long_name.as_deref(), Some("RIL"));
    assert_eq!(p.sector.as_deref(), Some("Energy"));
    assert_eq!(p.industry.as_deref(), Some("Oil & Gas Refining & Marketing"));
    assert_eq!(p.website.as_deref(), Some("https://ril.com"));
    assert_eq!(p.country.as_deref(), Some("India"));
    assert_eq!(p.exchange.as_deref(), Some("NSE"));
    assert_eq!(p.currency.as_deref(), Some("INR"));
    let bse = r#"{"quoteSummary":{"result":[{"assetProfile":{"longName":"Moving Pi"},"price":{"fullExchangeName":"YHD"}}]}}"#;
    let p = asset_profile_from_answer("MOVINGPI", bse);
    assert_eq!(p.long_name.as_deref(), Some("Moving Pi"));
    assert_eq!(p.exchange.as_deref(), Some("BSE"));
    assert_eq!(p.sector, None);
    let p = asset_profile_from_answer("X.NS", "{}");
    assert_eq!(p.long_name, None);
    assert_eq!(p.exchange, None);
}
