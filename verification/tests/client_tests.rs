use tardis_http::client::process_instrument_response;
use tardis_http::client::process_instruments_response;
use tardis_http::classify::classify_error_response;
use tardis_http::text::percent_encode;
use tardis_http::Exchange;
use tardis_http::InstrumentFilter;
use tardis_http::TardisError;
use tardis_http::TardisHttpClient;

fn client() -> TardisHttpClient {
    TardisHttpClient::new(Some("SECRET-REDACTED"), None, None, None, false).unwrap()
}

fn strings(xs: &[&str]) -> Vec<String> {
    xs.iter().map(|s| s.to_string()).collect()
}

#[test]
fn construction_without_any_credential_fails_immediately() {
    let r = TardisHttpClient::new(None, None, None, None, false);
    match r {
        Err(e) => assert!(e.is_missing_api_key()),
        Ok(_) => panic!("construction must fail without a credential"),
    }
}

#[test]
fn construction_takes_credential_from_environment_argument() {
    let c = TardisHttpClient::new(None, Some("from-env"), None, None, true).unwrap();
    assert_eq!(c.api_key, "from-env");
    assert!(c.normalize_symbols);
}

#[test]
fn construction_prefers_explicit_credential() {
    let c = TardisHttpClient::new(Some("explicit"), Some("from-env"), None, None, false).unwrap();
    assert_eq!(c.api_key, "explicit");
}

#[test]
fn construction_applies_defaults() {
    let c = client();
    assert_eq!(c.base_url, "https://api.tardis.dev/v1");
    assert_eq!(c.timeout_secs, 60);
}

#[test]
fn construction_keeps_overrides() {
    let c = TardisHttpClient::new(Some("k"), None, Some("http://localhost:8080"), Some(5), false)
        .unwrap();
    assert_eq!(c.base_url, "http://localhost:8080");
    assert_eq!(c.timeout_secs, 5);
}

#[test]
fn bearer_header_holds_credential() {
    let c = client();
    assert_eq!(c.bearer_header_value(), "Bearer SECRET-REDACTED");
}

#[test]
fn instruments_url_without_filter_has_no_query() {
    let c = client();
    let url = c.instruments_url(Exchange::Bitmex, None);
    assert_eq!(url, "https://api.tardis.dev/v1/instruments/bitmex");
    assert!(!url.contains('?'));
}

#[test]
fn instruments_url_with_unset_filter_has_no_query() {
    let c = client();
    let f = InstrumentFilter::new();
    let url = c.instruments_url(Exchange::Deribit, Some(&f));
    assert_eq!(url, "https://api.tardis.dev/v1/instruments/deribit");
    assert!(!url.contains("filter"));
}

#[test]
fn instruments_url_with_filter_appends_encoded_json() {
    let c = client();
    let f = InstrumentFilter::new().with_base_currency(strings(&["BTC"]));
    let url = c.instruments_url(Exchange::BinanceFutures, Some(&f));
    assert_eq!(
        url,
        "https://api.tardis.dev/v1/instruments/binance-futures?filter=%7B%22baseCurrency%22%3A%5B%22BTC%22%5D%7D"
    );
}

#[test]
fn instrument_url_targets_symbol() {
    let c = client();
    let url = c.instrument_url(Exchange::Okex, "BTC-USDT");
    assert_eq!(url, "https://api.tardis.dev/v1/instruments/okex/BTC-USDT");
}

#[test]
fn percent_encoding_leaves_unreserved_and_encodes_the_rest() {
    assert_eq!(percent_encode("abc-XYZ_0.9~"), "abc-XYZ_0.9~");
    assert_eq!(percent_encode("a b/c"), "a%20b%2Fc");
    assert_eq!(percent_encode("{\"k\":[1]}"), "%7B%22k%22%3A%5B1%5D%7D");
}

#[test]
fn structured_error_body_yields_its_code_and_message() {
    let e = classify_error_response(400, "{\"code\":3,\"message\":\"Invalid filter\"}");
    match e {
        TardisError::ApiError { status, code, message } => {
            assert_eq!(status, 400);
            assert_eq!(code, 3);
            assert_eq!(message, "Invalid filter");
        },
        _ => panic!("expected ApiError"),
    }
}

#[test]
fn structured_error_body_members_in_reverse_order() {
    let e = classify_error_response(403, " { \"message\" : \"denied\" , \"code\" : 7 } ");
    match e {
        TardisError::ApiError { status, code, message } => {
            assert_eq!(status, 403);
            assert_eq!(code, 7);
            assert_eq!(message, "denied");
        },
        _ => panic!("expected ApiError"),
    }
}

#[test]
fn non_json_error_body_yields_code_zero_and_raw_text() {
    let e = classify_error_response(500, "Internal Server Error");
    match e {
        TardisError::ApiError { status, code, message } => {
            assert_eq!(status, 500);
            assert_eq!(code, 0);
            assert_eq!(message, "Internal Server Error");
        },
        _ => panic!("expected ApiError"),
    }
}

#[test]
fn empty_error_body_yields_code_zero_and_empty_message() {
    let e = classify_error_response(502, "");
    match e {
        TardisError::ApiError { status, code, message } => {
            assert_eq!(status, 502);
            assert_eq!(code, 0);
            assert_eq!(message, "");
        },
        _ => panic!("expected ApiError"),
    }
}

#[test]
fn error_body_with_overflowing_code_falls_back_to_raw_text() {
    let body = "{\"code\":99999999999999999999999,\"message\":\"x\"}";
    let e = classify_error_response(400, body);
    match e {
        TardisError::ApiError { code, message, .. } => {
            assert_eq!(code, 0);
            assert_eq!(message, body);
        },
        _ => panic!("expected ApiError"),
    }
}

#[test]
fn escaped_message_text_is_unescaped() {
    let e = classify_error_response(404, "{\"code\":1,\"message\":\"a \\\"b\\\" \\\\ c\"}");
    match e {
        TardisError::ApiError { code, message, .. } => {
            assert_eq!(code, 1);
            assert_eq!(message, "a \"b\" \\ c");
        },
        _ => panic!("expected ApiError"),
    }
}

#[test]
fn success_status_with_malformed_body_is_a_parse_error() {
    let r = process_instruments_response(200, "this is not json");
    match r {
        Err(TardisError::ResponseParse(_)) => {},
        _ => panic!("expected a ResponseParse error"),
    }
}

#[test]
fn success_status_with_empty_array_is_ok_and_empty() {
    let r = process_instruments_response(200, " [ ] ").unwrap();
    assert_eq!(r.len(), 0);
}

#[test]
fn success_status_with_records_decodes_them() {
    let body = "[{\"id\":\"btcusdt\",\"type\":\"spot\",\"availableSince\":100,\"availableTo\":null},\
                {\"id\":\"ethusdt\",\"type\":\"perpetual\",\"availableSince\":null,\"availableTo\":200}]";
    let r = process_instruments_response(200, body).unwrap();
    assert_eq!(r.len(), 2);
    assert_eq!(r[0].symbol, "btcusdt");
    assert_eq!(r[0].instrument_type, "spot");
    assert_eq!(r[0].available_since, Some(100));
    assert_eq!(r[0].available_to, None);
    assert_eq!(r[1].symbol, "ethusdt");
    assert_eq!(r[1].available_to, Some(200));
}

#[test]
fn non_success_status_is_classified_not_parsed() {
    let r = process_instruments_response(429, "slow down");
    match r {
        Err(TardisError::ApiError { status, code, message }) => {
            assert_eq!(status, 429);
            assert_eq!(code, 0);
            assert_eq!(message, "slow down");
        },
        _ => panic!("expected ApiError"),
    }
}

#[test]
fn single_record_body_decodes_one_record() {
    let body = "{\"id\":\"XBTUSD\",\"type\":\"perpetual\",\"availableSince\":1,\"availableTo\":null}";
    let r = process_instrument_response(200, body).unwrap();
    assert_eq!(r.symbol, "XBTUSD");
    assert_eq!(r.instrument_type, "perpetual");
}

#[test]
fn single_record_body_that_is_an_array_is_a_parse_error() {
    let r = process_instrument_response(200, "[]");
    match r {
        Err(TardisError::ResponseParse(_)) => {},
        _ => panic!("expected a ResponseParse error"),
    }
}
