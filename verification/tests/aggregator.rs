use price_aggregator::aggregate::{aggregate_response, root_body, AggError, Fetched};
use price_aggregator::timestamp::is_rfc3339_utc_str;

fn dex_body() -> String {
    let mut b = String::new();
    b.push_str(r#"{"schema_version":"1.0.0","pairs":[{"#);
    b.push_str(r#""chain_id":"sui","pair_address":"0xabc","#);
    b.push_str(r#""base_token":{"address":"0xdef","name":"SkelSui","symbol":"SKELSUI"},"#);
    b.push_str(r#""price_usd":"0.00042","#);
    b.push_str(r#""volume":{"h24":123.45,"h6":60.5,"h1":10.25,"m5":1.5},"#);
    b.push_str(r#""liquidity":{"usd":50000.5,"base":1000.0,"quote":2000.0},"#);
    b.push_str(r#""fdv":1000,"market_cap":2000,"pair_created_at":1700000000000}]}"#);
    b
}

fn gecko_body() -> String {
    let mut b = String::new();
    b.push_str(r#"{"bitcoin":{"usd":97000.55,"usd_market_cap":1234567.5,"#);
    b.push_str(r#""usd_24h_vol":888.25,"usd_24h_change":-2.5},"#);
    b.push_str(r#""ethereum":{"usd":3500.75,"usd_market_cap":7654321.5,"#);
    b.push_str(r#""usd_24h_vol":444.5,"usd_24h_change":1.25}}"#);
    b
}

fn cc_body() -> String {
    r#"{"RAW":{"BTC":{"USD":{"PRICE":97000.1,"SUPPLY":19500000.5,"MKTCAP":1000000.5}}}}"#
        .to_string()
}

#[test]
fn root_is_fixed_text() {
    assert_eq!(root_body(), "Root endpoint hit");
}

#[test]
fn three_good_bodies_aggregate() {
    let r = aggregate_response(
        Fetched::Body(dex_body()),
        Fetched::Body(gecko_body()),
        Fetched::Body(cc_body()),
    );
    let a = r.expect("all three stages should succeed");
    assert_eq!(a.dex_token_name, "SkelSui");
    assert_eq!(a.dex_token_symbol, "SKELSUI");
    assert_eq!(a.dex_price_usd, "0.00042");
    assert_eq!(a.dex_liquidity_usd, "50000.5");
    assert_eq!(a.dex_volume_24h, "123.45");
    assert_eq!(a.dex_market_cap, 2000);
    assert_eq!(a.btc_price, "97000.55");
    assert_eq!(a.eth_price, "3500.75");
    assert_eq!(a.btc_24h_change, "-2.5");
    assert_eq!(a.btc_supply, "19500000.5");
    assert_eq!(a.btc_market_cap_cc, "1000000.5");
    assert!(is_rfc3339_utc_str(a.fetched_at.as_str()));
    assert!(a.dex_liquidity_usd.parse::<f64>().unwrap().is_finite());
    assert!(a.btc_price.parse::<f64>().unwrap().is_finite());
    assert!(a.btc_supply.parse::<f64>().unwrap().is_finite());
}

#[test]
fn fetched_at_is_rfc3339_and_current() {
    let before = chrono::Utc::now();
    let r = aggregate_response(
        Fetched::Body(dex_body()),
        Fetched::Body(gecko_body()),
        Fetched::Body(cc_body()),
    );
    let after = chrono::Utc::now();
    let a = r.expect("all three stages should succeed");
    let t = chrono::DateTime::parse_from_rfc3339(&a.fetched_at)
        .expect("fetched_at parses as RFC 3339")
        .with_timezone(&chrono::Utc);
    assert!(before <= t);
    assert!(t <= after);
}

#[test]
fn empty_pairs_is_an_error() {
    let dex = r#"{"schema_version":"1.0.0","pairs":[]}"#.to_string();
    let r = aggregate_response(
        Fetched::Body(dex),
        Fetched::Body(gecko_body()),
        Fetched::Body(cc_body()),
    );
    let e = r.expect_err("an empty pair sequence must fail");
    assert!(matches!(e, AggError::NoPairs));
    assert_eq!(e.message(), "No pairs found in DexScreener response");
}

#[test]
fn dex_transport_failure_names_the_provider() {
    let r = aggregate_response(
        Fetched::Transport("connection refused".to_string()),
        Fetched::Body(gecko_body()),
        Fetched::Body(cc_body()),
    );
    let e = r.expect_err("a transport failure must fail the request");
    assert_eq!(e.message(), "Desxcreener result failed: connection refused");
}

#[test]
fn gecko_transport_failure_names_the_provider() {
    let r = aggregate_response(
        Fetched::Body(dex_body()),
        Fetched::Transport("connection refused".to_string()),
        Fetched::Body(cc_body()),
    );
    let e = r.expect_err("a transport failure must fail the request");
    assert_eq!(e.message(), "CoinGecko request failed: connection refused");
}

#[test]
fn cc_transport_failure_names_the_provider() {
    let r = aggregate_response(
        Fetched::Body(dex_body()),
        Fetched::Body(gecko_body()),
        Fetched::Transport("dns error".to_string()),
    );
    let e = r.expect_err("a transport failure must fail the request");
    assert_eq!(e.message(), "CryptoCompare request failed: dns error");
}

#[test]
fn missing_supply_defaults_to_zero() {
    let cc = r#"{"RAW":{"BTC":{"USD":{"PRICE":97000.1,"MKTCAP":1000000.5}}}}"#.to_string();
    let r = aggregate_response(
        Fetched::Body(dex_body()),
        Fetched::Body(gecko_body()),
        Fetched::Body(cc),
    );
    let a = r.expect("a missing supply field is not an error");
    assert_eq!(a.btc_supply, "0");
    assert_eq!(a.btc_supply.parse::<f64>().unwrap(), 0.0);
    assert_eq!(a.btc_market_cap_cc, "1000000.5");
}

#[test]
fn missing_market_cap_defaults_to_zero() {
    let cc = r#"{"RAW":{"BTC":{"USD":{"PRICE":97000.1,"SUPPLY":19500000.5}}}}"#.to_string();
    let r = aggregate_response(
        Fetched::Body(dex_body()),
        Fetched::Body(gecko_body()),
        Fetched::Body(cc),
    );
    let a = r.expect("a missing market-cap field is not an error");
    assert_eq!(a.btc_market_cap_cc, "0");
    assert_eq!(a.btc_market_cap_cc.parse::<f64>().unwrap(), 0.0);
    assert_eq!(a.btc_supply, "19500000.5");
}

#[test]
fn non_numeric_supply_defaults_to_zero() {
    let cc = r#"{"RAW":{"BTC":{"USD":{"SUPPLY":"plenty","MKTCAP":1.5}}}}"#.to_string();
    let r = aggregate_response(
        Fetched::Body(dex_body()),
        Fetched::Body(gecko_body()),
        Fetched::Body(cc),
    );
    let a = r.expect("a non-numeric supply field is not an error");
    assert_eq!(a.btc_supply, "0");
    assert_eq!(a.btc_market_cap_cc, "1.5");
}

#[test]
fn cc_path_entirely_missing_defaults_to_zero() {
    let cc = r#"{"Message":"rate limit"}"#.to_string();
    let r = aggregate_response(
        Fetched::Body(dex_body()),
        Fetched::Body(gecko_body()),
        Fetched::Body(cc),
    );
    let a = r.expect("a missing path is not an error for the secondary provider");
    assert_eq!(a.btc_supply, "0");
    assert_eq!(a.btc_market_cap_cc, "0");
}

#[test]
fn dex_body_that_is_not_json_fails_decode() {
    let r = aggregate_response(
        Fetched::Body("not json".to_string()),
        Fetched::Body(gecko_body()),
        Fetched::Body(cc_body()),
    );
    let e = r.expect_err("an unparseable body must fail");
    assert!(matches!(e, AggError::DexDecode));
    assert_eq!(
        e.message(),
        "Dexscreener request failed: the response body did not decode"
    );
}

#[test]
fn dex_decode_failure_comes_before_gecko_transport() {
    let r = aggregate_response(
        Fetched::Body("not json".to_string()),
        Fetched::Transport("connection refused".to_string()),
        Fetched::Body(cc_body()),
    );
    let e = r.expect_err("both stages failed; the first one is reported");
    assert!(matches!(e, AggError::DexDecode));
}

#[test]
fn gecko_body_missing_asset_fails_decode() {
    let gecko = r#"{"bitcoin":{"usd":1.5,"usd_market_cap":2.5,"usd_24h_vol":3.5,"usd_24h_change":4.5}}"#
        .to_string();
    let r = aggregate_response(
        Fetched::Body(dex_body()),
        Fetched::Body(gecko),
        Fetched::Body(cc_body()),
    );
    let e = r.expect_err("a missing asset record must fail");
    assert!(matches!(e, AggError::GeckoDecode));
    assert_eq!(
        e.message(),
        "CoinGecko JSON parse failed: the response body did not decode"
    );
}

#[test]
fn cc_body_that_is_not_json_fails_decode() {
    let r = aggregate_response(
        Fetched::Body(dex_body()),
        Fetched::Body(gecko_body()),
        Fetched::Body("{\"RAW\":".to_string()),
    );
    let e = r.expect_err("an unparseable body must fail");
    assert!(matches!(e, AggError::CcDecode));
    assert_eq!(
        e.message(),
        "CryptoCompare JSON parse failed: the response body did not decode"
    );
}

#[test]
fn fractional_integer_field_fails_decode() {
    let dex = dex_body().replace("\"market_cap\":2000", "\"market_cap\":2000.5");
    let r = aggregate_response(
        Fetched::Body(dex),
        Fetched::Body(gecko_body()),
        Fetched::Body(cc_body()),
    );
    let e = r.expect_err("a fractional value in an integer field must fail");
    assert!(matches!(e, AggError::DexDecode));
}

#[test]
fn unexpected_extra_field_fails_decode() {
    let dex = dex_body().replace(
        "\"schema_version\":\"1.0.0\"",
        "\"schema_version\":\"1.0.0\",\"extra\":1",
    );
    let r = aggregate_response(
        Fetched::Body(dex),
        Fetched::Body(gecko_body()),
        Fetched::Body(cc_body()),
    );
    let e = r.expect_err("an unexpected field must fail");
    assert!(matches!(e, AggError::DexDecode));
}

#[test]
fn integer_priced_gecko_body_keeps_integer_text() {
    let gecko = gecko_body().replace("97000.55", "97000");
    let r = aggregate_response(
        Fetched::Body(dex_body()),
        Fetched::Body(gecko),
        Fetched::Body(cc_body()),
    );
    let a = r.expect("an integer in a numeric field is accepted");
    assert_eq!(a.btc_price, "97000");
    assert_eq!(a.btc_price.parse::<f64>().unwrap(), 97000.0);
}
