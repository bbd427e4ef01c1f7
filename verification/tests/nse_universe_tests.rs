use stocker_core::symbol::{default_india_symbol_context, parse_nse_bases_from_csv};

#[test]
fn parse_nse_bases_from_csv_sample() {
    let sample = b"SYMBOL,NAME OF COMPANY, SERIES\nRELIANCE,Reliance Industries Ltd,EQ\nTCS,TCS Ltd,EQ\nFOO,Foo Ltd,BE\n";
    let bases = parse_nse_bases_from_csv(sample);
    assert!(bases.contains("RELIANCE"));
    assert!(bases.contains("TCS"));
    assert!(!bases.contains("FOO"));
}

#[test]
fn single_column_list_with_comments_and_suffixes() {
    let sample = b"symbol\nreliance.ns\n# comment\nSYMBOL\n  infy  \n\n";
    let bases = parse_nse_bases_from_csv(sample);
    assert!(bases.contains("RELIANCE"));
    assert!(bases.contains("INFY"));
    assert!(!bases.contains("# comment"));
    assert!(!bases.contains("SYMBOL"));
}

#[test]
fn ticker_header_and_blank_series_kept() {
    let sample = b"name,ticker,series\nHDFC Bank,HDFCBANK,\nSBI,SBIN,eq\nX,XYZ,BZ\n";
    let bases = parse_nse_bases_from_csv(sample);
    assert!(bases.contains("HDFCBANK"));
    assert!(bases.contains("SBIN"));
    assert!(!bases.contains("XYZ"));
    assert!(!bases.contains("HDFC Bank"));
}

#[test]
fn missing_symbol_column_uses_first_column() {
    let sample = b"code,series\nITC,EQ\n";
    let bases = parse_nse_bases_from_csv(sample);
    assert!(bases.contains("ITC"));
}

#[test]
fn default_context_without_file_lists_nothing() {
    let ctx = default_india_symbol_context(None);
    assert!(!ctx.is_nse_listed("RELIANCE"));
}

#[test]
fn default_context_from_equity_list_bytes() {
    let bytes: &[u8] = b"SYMBOL,SERIES\nRELIANCE,EQ\n";
    let ctx = default_india_symbol_context(Some(bytes));
    assert!(ctx.is_nse_listed("reliance"));
    assert!(!ctx.is_nse_listed("TCS"));
}
