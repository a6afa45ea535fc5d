use dummy_bitcoin_canister::json::is_decimal_str;
use dummy_bitcoin_canister::requests::GetBalanceRequestJson;
use dummy_bitcoin_canister::requests::SendRequestJson;
use dummy_bitcoin_canister::responses::error_response;
use dummy_bitcoin_canister::responses::u64s_to_json;
use dummy_bitcoin_canister::responses::utxos_to_json;
use dummy_bitcoin_canister::responses::DummyTestData;
use dummy_bitcoin_canister::responses::DummyTestResponse;
use dummy_bitcoin_canister::responses::GetBalanceResponse;
use dummy_bitcoin_canister::responses::SendResponse;
use dummy_bitcoin_canister::responses::TestData;
use dummy_bitcoin_canister::responses::Utxo;

#[test]
fn balance_encoder_exact_document() {
    let response = GetBalanceResponse {
        address: String::from("tb1qsomewhere"),
        balance: String::from("0.005"),
        unit: String::from("BTC"),
    };
    assert_eq!(response.to_json(), r#"{"address":"tb1qsomewhere","balance":0.005,"unit":"BTC"}"#);
}

#[test]
fn balance_encoder_falls_back_on_bad_number() {
    let response = GetBalanceResponse {
        address: String::from("a"),
        balance: String::from("NaN"),
        unit: String::from("BTC"),
    };
    assert_eq!(response.to_json(), "{}");
}

#[test]
fn balance_encoder_accepts_negative_decimal() {
    let response = GetBalanceResponse {
        address: String::from("a"),
        balance: String::from("-12.75"),
        unit: String::from("BTC"),
    };
    assert_eq!(response.to_json(), r#"{"address":"a","balance":-12.75,"unit":"BTC"}"#);
}

#[test]
fn diagnostic_encoder_falls_back_on_bad_number() {
    let response = DummyTestResponse {
        status: String::from("success"),
        data: DummyTestData {
            message: String::from("m"),
            timestamp: String::from("t"),
            test_data: TestData {
                id: 1,
                name: String::from("n"),
                value: String::from("1."),
                is_test: true,
            },
        },
    };
    assert_eq!(response.to_json(), "{}");
}

#[test]
fn send_encoder_exact_document() {
    let response = SendResponse {
        success: false,
        destination: String::from("d\"x"),
        amount: 0,
        tx_id: String::from("t"),
    };
    assert_eq!(response.to_json(), r#"{"success":false,"destination":"d\"x","amount":0,"txId":"t"}"#);
}

#[test]
fn utxo_array_encoder_empty_and_single() {
    let empty: Vec<Utxo> = Vec::new();
    assert_eq!(utxos_to_json(&empty), "[]");
    let single = vec![
        Utxo { txid: String::from("t0"), vout: 7, value: 1, confirmations: 0 },
    ];
    assert_eq!(utxos_to_json(&single), r#"[{"txid":"t0","vout":7,"value":1,"confirmations":0}]"#);
}

#[test]
fn u64_array_encoder_exact() {
    let values = vec![0u64, 5, 10, u64::MAX];
    assert_eq!(u64s_to_json(&values), "[0,5,10,18446744073709551615]");
}

#[test]
fn error_payload_does_not_escape_message() {
    assert_eq!(error_response("Invalid request body"), r#"{"error":"Invalid request body"}"#);
    assert_eq!(error_response("with \" quote"), "{\"error\":\"with \" quote\"}");
}

#[test]
fn decimal_literal_check() {
    for good in ["0", "7", "42", "0.005", "-1.5", "-0", "123.456"] {
        assert!(is_decimal_str(good), "expected {:?} to pass", good);
    }
    for bad in ["", "-", ".", "1.", ".5", "1.2.3", "--1", "1e5", "NaN", "+1", "1 "] {
        assert!(!is_decimal_str(bad), "expected {:?} to fail", bad);
    }
}

#[test]
fn balance_decoder_extracts_address() {
    let decoded = GetBalanceRequestJson::decode(br#"{"address":"hello"}"#).unwrap();
    assert_eq!(decoded.address, "hello");
    assert!(GetBalanceRequestJson::decode(br#"{"address":null}"#).is_none());
    assert!(GetBalanceRequestJson::decode(br#"[1,2,3]"#).is_none());
}

#[test]
fn send_decoder_extracts_both_fields() {
    let decoded = SendRequestJson::decode(
        br#"{"amountInSatoshi":77,"destinationAddress":"dest"}"#,
    ).unwrap();
    assert_eq!(decoded.destination_address, "dest");
    assert_eq!(decoded.amount_in_satoshi, 77);
    assert!(SendRequestJson::decode(br#"{"destinationAddress":"dest"}"#).is_none());
}
