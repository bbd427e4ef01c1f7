# stocker_core

NSE-focused stock research core, written in Verus: every function in `src/` carries a
contract and is proved against it.

- `src/` — the verified library: ticker resolution and the NSE universe list, the
  remote data-source policy, lender classification and curated peers, Screener.in
  table parsing, statement time-series requests and answers, statement ordering and
  quarter freshness, headline queries and ranking, provider answers (search quotes,
  headlines, company profile), import payload decoding, database path decisions (which copy
  to use, and which of the three databases to pin or migrate), data coverage with
  exact percentages and the gating of lender recommendations, action guidance from the
  financial-strength audit, the plain-language research summary, and the laws relating
  them (`src/laws.rs`).
  Calls into `chrono`, `csv`, `serde_json` and `urlencoding` go through small trusted
  wrappers whose contracts name or state what those crates return.
- `tests/` — tests run against the compiled library.
- `app/` — the `stocker` command line: network and file access, JSON output, and the
  floating-point technical indicators, around the library.
