use tardis_http::filter::InstrumentFilter;

fn strings(xs: &[&str]) -> Vec<String> {
    xs.iter().map(|s| s.to_string()).collect()
}

#[test]
fn empty_filter_serializes_to_empty_object() {
    let f = InstrumentFilter::new();
    assert!(f.is_unset());
    assert_eq!(f.to_json(), "{}");
}

#[test]
fn single_field_serializes_only_that_key() {
    let f = InstrumentFilter::new().with_base_currency(strings(&["BTC", "ETH"]));
    let json = f.to_json();
    assert_eq!(json, "{\"baseCurrency\":[\"BTC\",\"ETH\"]}");
    assert!(!json.contains("quoteCurrency"));
    assert!(!json.contains("type"));
    assert!(!json.contains("contractType"));
    assert!(!json.contains("active"));
    assert!(!json.contains("null"));
}

#[test]
fn all_fields_serialize_in_declaration_order() {
    let f = InstrumentFilter::new()
        .with_base_currency(strings(&["BTC"]))
        .with_quote_currency(strings(&["USDT"]))
        .with_instrument_type(strings(&["perpetual"]))
        .with_contract_type(strings(&["linear_perpetual"]))
        .with_active(true);
    assert_eq!(
        f.to_json(),
        "{\"baseCurrency\":[\"BTC\"],\"quoteCurrency\":[\"USDT\"],\"type\":[\"perpetual\"],\"contractType\":[\"linear_perpetual\"],\"active\":true}"
    );
}

#[test]
fn active_false_serializes_as_false() {
    let f = InstrumentFilter::new().with_active(false);
    assert_eq!(f.to_json(), "{\"active\":false}");
}

#[test]
fn unset_fields_never_appear_even_as_null() {
    let f = InstrumentFilter::new().with_quote_currency(strings(&["USD"]));
    let json = f.to_json();
    assert_eq!(json, "{\"quoteCurrency\":[\"USD\"]}");
    assert!(!json.contains("baseCurrency"));
    assert!(!json.contains("null"));
}

#[test]
fn values_with_quotes_and_backslashes_are_escaped() {
    let f = InstrumentFilter::new().with_base_currency(strings(&["a\"b", "c\\d"]));
    assert_eq!(f.to_json(), "{\"baseCurrency\":[\"a\\\"b\",\"c\\\\d\"]}");
}

#[test]
fn empty_list_field_serializes_as_empty_array() {
    let f = InstrumentFilter::new().with_contract_type(Vec::new());
    assert_eq!(f.to_json(), "{\"contractType\":[]}");
}
