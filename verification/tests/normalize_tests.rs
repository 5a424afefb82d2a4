use tardis_http::normalize::normalize_records;
use tardis_http::normalize::parse_instrument_any;
use tardis_http::RawInstrumentRecord;
use tardis_http::TardisHttpClient;

fn record(symbol: &str, kind: &str, since: Option<u64>, to: Option<u64>) -> RawInstrumentRecord {
    RawInstrumentRecord {
        symbol: symbol.to_string(),
        instrument_type: kind.to_string(),
        available_since: since,
        available_to: to,
    }
}

#[test]
fn well_formed_record_yields_one_instrument() {
    let r = record("btcusdt", "spot", None, None);
    let out = parse_instrument_any(&r, None, None, 7, false);
    assert_eq!(out.len(), 1);
    assert_eq!(out[0].symbol, "btcusdt");
    assert_eq!(out[0].instrument_type, "spot");
    assert_eq!(out[0].ts_init, 7);
}

#[test]
fn symbols_are_uppercased_when_normalization_is_on() {
    let r = record("btc-usdt", "perpetual", None, None);
    let out = parse_instrument_any(&r, None, None, 0, true);
    assert_eq!(out.len(), 1);
    assert_eq!(out[0].symbol, "BTC-USDT");
}

#[test]
fn unsupported_kind_yields_nothing() {
    let r = record("x", "swap_exotic", None, None);
    assert_eq!(parse_instrument_any(&r, None, None, 0, false).len(), 0);
}

#[test]
fn empty_symbol_yields_nothing() {
    let r = record("", "spot", None, None);
    assert_eq!(parse_instrument_any(&r, None, None, 0, false).len(), 0);
}

#[test]
fn lifetime_entirely_before_window_is_excluded() {
    let r = record("old", "future", Some(10), Some(20));
    let out = parse_instrument_any(&r, Some(30), Some(40), 0, false);
    assert_eq!(out.len(), 0);
}

#[test]
fn lifetime_entirely_after_window_is_excluded() {
    let r = record("new", "future", Some(50), Some(60));
    let out = parse_instrument_any(&r, Some(30), Some(40), 0, false);
    assert_eq!(out.len(), 0);
}

#[test]
fn lifetime_overlapping_window_is_included() {
    let r = record("live", "future", Some(35), Some(60));
    let out = parse_instrument_any(&r, Some(30), Some(40), 0, false);
    assert_eq!(out.len(), 1);
}

#[test]
fn record_with_no_lifetime_bounds_is_always_included() {
    let r = record("open", "option", None, None);
    let out = parse_instrument_any(&r, Some(30), Some(40), 0, false);
    assert_eq!(out.len(), 1);
}

#[test]
fn one_malformed_record_never_drops_its_siblings() {
    let records = vec![
        record("a", "spot", None, None),
        record("bad", "not-a-kind", None, None),
        record("c", "perpetual", None, None),
    ];
    let out = normalize_records(&records, None, None, 1, false);
    assert_eq!(out.len(), 2);
    assert_eq!(out[0].symbol, "a");
    assert_eq!(out[1].symbol, "c");
    let again = normalize_records(&records, None, None, 1, false);
    assert_eq!(again.len(), 2);
    assert_eq!(again[0].symbol, "a");
    assert_eq!(again[1].symbol, "c");
}

#[test]
fn ts_init_falls_back_to_the_callers_clock() {
    let c = TardisHttpClient::new(Some("k"), None, None, None, false).unwrap();
    let records = vec![record("a", "spot", None, None)];
    let with_explicit = c.instruments_from_records(&records, None, None, Some(5), 999);
    assert_eq!(with_explicit[0].ts_init, 5);
    let with_now = c.instruments_from_records(&records, None, None, None, 999);
    assert_eq!(with_now[0].ts_init, 999);
}

#[test]
fn single_record_normalization_uses_the_client_policy() {
    let c = TardisHttpClient::new(Some("k"), None, None, None, true).unwrap();
    let r = record("xbtusd", "perpetual", None, None);
    let out = c.instrument_from_record(&r, None, None, Some(3), 0);
    assert_eq!(out.len(), 1);
    assert_eq!(out[0].symbol, "XBTUSD");
    assert_eq!(out[0].ts_init, 3);
}
