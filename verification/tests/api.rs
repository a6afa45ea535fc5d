use dummy_bitcoin_canister::http_request;
use dummy_bitcoin_canister::http_request_update;

#[test]
fn balance_route_echoes_address() {
    let out = http_request_update("/get-balance", br#"{"address":"bc1qexample"}"#);
    assert_eq!(out, r#"{"address":"bc1qexample","balance":0.005,"unit":"BTC"}"#);
}

#[test]
fn balance_route_escapes_address() {
    let out = http_request_update("/get-balance", br#"{"address":"a\"b\\c"}"#);
    assert_eq!(out, r#"{"address":"a\"b\\c","balance":0.005,"unit":"BTC"}"#);
}

#[test]
fn balance_route_escapes_control_characters() {
    let out = http_request_update("/get-balance", br#"{"address":"x\ny\u0001"}"#);
    assert_eq!(out, "{\"address\":\"x\\ny\\u0001\",\"balance\":0.005,\"unit\":\"BTC\"}");
}

#[test]
fn balance_route_rejects_missing_field() {
    let out = http_request_update("/get-balance", b"{}");
    assert_eq!(out, r#"{"error":"Invalid request body"}"#);
}

#[test]
fn balance_route_rejects_malformed_body() {
    let out = http_request_update("/get-balance", b"this is not json");
    assert_eq!(out, r#"{"error":"Invalid request body"}"#);
}

#[test]
fn balance_route_rejects_wrong_field_type() {
    let out = http_request_update("/get-balance", br#"{"address":5}"#);
    assert_eq!(out, r#"{"error":"Invalid request body"}"#);
}

#[test]
fn balance_route_ignores_unknown_fields() {
    let out = http_request_update("/get-balance", br#"{"address":"x","extra":[1,2]}"#);
    assert_eq!(out, r#"{"address":"x","balance":0.005,"unit":"BTC"}"#);
}

#[test]
fn utxos_route_fixed_listing() {
    let out = http_request_update("/get-utxos", br#"{"address":"bc1qone"}"#);
    assert_eq!(
        out,
        r#"[{"txid":"dummy-txid-1","vout":0,"value":25000,"confirmations":5},{"txid":"dummy-txid-2","vout":1,"value":50000,"confirmations":3}]"#,
    );
}

#[test]
fn utxos_route_same_for_any_address() {
    let one = http_request_update("/get-utxos", br#"{"address":"bc1qone"}"#);
    let two = http_request_update("/get-utxos", br#"{"address":"bc1qother"}"#);
    assert_eq!(one, two);
}

#[test]
fn utxos_route_rejects_malformed_body() {
    let out = http_request_update("/get-utxos", b"[");
    assert_eq!(out, r#"{"error":"Invalid request body"}"#);
}

#[test]
fn fee_route_exact_sequence() {
    let mut expected = String::from("[");
    for n in 100..200 {
        if n > 100 {
            expected.push(',');
        }
        expected.push_str(&format!("{}", n));
    }
    expected.push(']');
    let out = http_request_update("/get-current-fee-percentiles", b"anything");
    assert_eq!(out, expected);
}

#[test]
fn p2pkh_route_constant_address() {
    let out = http_request_update("/get-p2pkh-address", b"");
    assert_eq!(out, r#"{"address":"tb1qdummyaddressxyz1234567890"}"#);
}

#[test]
fn send_route_echoes_destination_and_amount() {
    let body = br#"{"destinationAddress":"abc","amountInSatoshi":12345}"#;
    let out = http_request_update("/send", body);
    assert_eq!(
        out,
        r#"{"success":true,"destination":"abc","amount":12345,"txId":"dummy-txid-sent-1234567890"}"#,
    );
}

#[test]
fn send_route_accepts_largest_amount() {
    let body = br#"{"destinationAddress":"abc","amountInSatoshi":18446744073709551615}"#;
    let out = http_request_update("/send", body);
    assert_eq!(
        out,
        r#"{"success":true,"destination":"abc","amount":18446744073709551615,"txId":"dummy-txid-sent-1234567890"}"#,
    );
}

#[test]
fn send_route_rejects_negative_amount() {
    let body = br#"{"destinationAddress":"abc","amountInSatoshi":-1}"#;
    let out = http_request_update("/send", body);
    assert_eq!(out, r#"{"error":"Invalid request body"}"#);
}

#[test]
fn send_route_rejects_fractional_amount() {
    let body = br#"{"destinationAddress":"abc","amountInSatoshi":1.5}"#;
    let out = http_request_update("/send", body);
    assert_eq!(out, r#"{"error":"Invalid request body"}"#);
}

#[test]
fn send_route_rejects_missing_destination() {
    let body = br#"{"amountInSatoshi":1}"#;
    let out = http_request_update("/send", body);
    assert_eq!(out, r#"{"error":"Invalid request body"}"#);
}

#[test]
fn dummy_test_route_constant_document() {
    let out = http_request_update("/dummy-test", b"");
    assert_eq!(
        out,
        r#"{"status":"success","data":{"message":"This is a dummy response","timestamp":"2024-01-01T12:00:00.000Z","testData":{"id":1,"name":"Test Bitcoin Data","value":0.001,"isTest":true}}}"#,
    );
}

#[test]
fn welcome_route_for_unknown_path() {
    let out = http_request_update("/unknown", b"");
    assert_eq!(out, r#"{"message":"Welcome to the Dummy Bitcoin Canister API"}"#);
}

#[test]
fn welcome_route_for_empty_path() {
    let out = http_request_update("", b"{}");
    assert_eq!(out, r#"{"message":"Welcome to the Dummy Bitcoin Canister API"}"#);
}

#[test]
fn routing_prefers_send_over_dummy_test() {
    let body = br#"{"destinationAddress":"abc","amountInSatoshi":7}"#;
    let out = http_request_update("/send/dummy-test", body);
    assert_eq!(
        out,
        r#"{"success":true,"destination":"abc","amount":7,"txId":"dummy-txid-sent-1234567890"}"#,
    );
}

#[test]
fn routing_prefers_balance_over_utxos() {
    let out = http_request_update("/get-balance/get-utxos", br#"{"address":"z"}"#);
    assert_eq!(out, r#"{"address":"z","balance":0.005,"unit":"BTC"}"#);
}

#[test]
fn routing_matches_substring_anywhere() {
    let out = http_request_update("/api/v1/get-p2pkh-address?x=1", b"");
    assert_eq!(out, r#"{"address":"tb1qdummyaddressxyz1234567890"}"#);
}

#[test]
fn repeated_requests_are_byte_identical() {
    let cases: Vec<(&str, &[u8])> = vec![
        ("/get-balance", br#"{"address":"same"}"#),
        ("/get-utxos", br#"{"address":"same"}"#),
        ("/get-current-fee-percentiles", b""),
        ("/get-p2pkh-address", b""),
        ("/send", br#"{"destinationAddress":"d","amountInSatoshi":9}"#),
        ("/dummy-test", b""),
        ("/nowhere", b""),
    ];
    for (url, body) in cases {
        let first = http_request_update(url, body);
        let second = http_request_update(url, body);
        assert_eq!(first.into_bytes(), second.into_bytes());
    }
}

#[test]
fn probe_returns_empty_upgrade() {
    let probe = http_request("/get-balance", br#"{"address":"x"}"#);
    assert!(probe.upgrade);
    assert!(probe.body.is_empty());
}

#[test]
fn probe_ignores_path_and_body() {
    for (url, body) in [("/send", b"raw" as &[u8]), ("", b""), ("/dummy-test", b"{}")] {
        let probe = http_request(url, body);
        assert!(probe.upgrade);
        assert!(probe.body.is_empty());
    }
}
