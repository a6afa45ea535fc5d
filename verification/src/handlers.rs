//! One handler per logical operation. Every handler is total: a body
//! that fails to decode is answered with the uniform error payload, and
//! every other path produces the operation's document.

use vstd::prelude::*;
use crate::json::all_digits;
use crate::json::decimal_text;
use crate::json::dec_str;
use crate::json::unsigned_decimal_text;
use crate::requests::address_request_of;
use crate::requests::send_request_of;
use crate::requests::GetBalanceRequestJson;
use crate::requests::GetUtxosRequestJson;
use crate::requests::SendRequestJson;
use crate::responses::balance_json_text;
use crate::responses::dummy_data_json_text;
use crate::responses::dummy_response_json_text;
use crate::responses::error_json_text;
use crate::responses::error_response;
use crate::responses::p2pkh_json_text;
use crate::responses::send_json_text;
use crate::responses::test_data_json_text;
use crate::responses::u64_list_text;
use crate::responses::u64s_to_json;
use crate::responses::utxo_json_text;
use crate::responses::utxo_list_text;
use crate::responses::utxo_text_of;
use crate::responses::utxos_to_json;
use crate::responses::welcome_json_text;
use crate::responses::DummyTestData;
use crate::responses::DummyTestResponse;
use crate::responses::GetBalanceResponse;
use crate::responses::GetP2pkhAddressResponse;
use crate::responses::SendResponse;
use crate::responses::TestData;
use crate::responses::Utxo;
use crate::responses::WelcomeMessage;

verus! {

/// The error payload for a body that does not decode.
pub open spec fn invalid_body_text() -> Seq<char> {
    error_json_text("Invalid request body"@)
}

/// The balance text used by the balance handler is a well-formed
/// decimal literal.
pub proof fn lemma_balance_amount_decimal()
    ensures
        decimal_text("0.005"@),
{
    reveal_strlit("0.005");
    let s = "0.005"@;
    assert(s.len() == 5);
    assert(s[1] == '.');
    assert(all_digits(s.subrange(0, 1))) by {
        assert(s.subrange(0, 1)[0] == '0');
    }
    assert(all_digits(s.subrange(2, 5))) by {
        assert(s.subrange(2, 5)[0] == '0');
        assert(s.subrange(2, 5)[1] == '0');
        assert(s.subrange(2, 5)[2] == '5');
    }
    assert(unsigned_decimal_text(s));
}

/// The diagnostic value text used by the diagnostic handler is a
/// well-formed decimal literal.
pub proof fn lemma_diagnostic_amount_decimal()
    ensures
        decimal_text("0.001"@),
{
    reveal_strlit("0.001");
    let s = "0.001"@;
    assert(s.len() == 5);
    assert(s[1] == '.');
    assert(all_digits(s.subrange(0, 1))) by {
        assert(s.subrange(0, 1)[0] == '0');
    }
    assert(all_digits(s.subrange(2, 5))) by {
        assert(s.subrange(2, 5)[0] == '0');
        assert(s.subrange(2, 5)[1] == '0');
        assert(s.subrange(2, 5)[2] == '1');
    }
    assert(unsigned_decimal_text(s));
}

/// What the welcome operation answers.
pub open spec fn welcome_text() -> Seq<char> {
    welcome_json_text("Welcome to the Dummy Bitcoin Canister API"@)
}

/// Answers with the constant welcome document.
pub fn handle_welcome() -> (r: String)
    ensures
        r@ == welcome_text(),
{
    let welcome = WelcomeMessage {
        message: String::from_str("Welcome to the Dummy Bitcoin Canister API"),
    };
    welcome.to_json()
}

/// What the balance operation answers for a given body: the balance
/// document echoing the decoded address, with the fixed balance 0.005
/// and the unit "BTC"; the error payload when the body does not decode.
pub open spec fn balance_route_text(body: Seq<u8>) -> Seq<char> {
    match address_request_of(body) {
        Some(address) => balance_json_text(address, "0.005"@, "BTC"@),
        None => invalid_body_text(),
    }
}

/// Answers a balance request.
pub fn handle_get_balance(body: &[u8]) -> (r: String)
    ensures
        r@ == balance_route_text(body@),
{
    match GetBalanceRequestJson::decode(body) {
        Some(request) => {
            let response = GetBalanceResponse {
                address: request.address,
                balance: String::from_str("0.005"),
                unit: String::from_str("BTC"),
            };
            proof {
                lemma_balance_amount_decimal();
            }
            response.to_json()
        },
        None => error_response("Invalid request body"),
    }
}

/// What the UTXO operation answers for a decodable body: a fixed
/// two-element listing, whatever the decoded address was.
pub open spec fn utxos_ok_text() -> Seq<char> {
    "["@ + utxo_json_text("dummy-txid-1"@, 0, 25000, 5) + ","@ + utxo_json_text(
        "dummy-txid-2"@,
        1,
        50000,
        3,
    ) + "]"@
}

/// What the UTXO operation answers for a given body.
pub open spec fn utxos_route_text(body: Seq<u8>) -> Seq<char> {
    match address_request_of(body) {
        Some(_) => utxos_ok_text(),
        None => invalid_body_text(),
    }
}

/// Answers a UTXO listing request. The decoded input is discarded.
pub fn handle_get_utxos(body: &[u8]) -> (r: String)
    ensures
        r@ == utxos_route_text(body@),
{
    match GetUtxosRequestJson::decode(body) {
        Some(_request) => {
            let mut utxos: Vec<Utxo> = Vec::new();
            utxos.push(
                Utxo {
                    txid: String::from_str("dummy-txid-1"),
                    vout: 0,
                    value: 25000,
                    confirmations: 5,
                },
            );
            utxos.push(
                Utxo {
                    txid: String::from_str("dummy-txid-2"),
                    vout: 1,
                    value: 50000,
                    confirmations: 3,
                },
            );
            let r = utxos_to_json(&utxos);
            proof {
                let items = utxos@;
                assert(items.len() == 2);
                assert(items.drop_last() =~= items.subrange(0, 1));
                assert(utxo_list_text(items.subrange(0, 1)) == utxo_text_of(items[0]));
                assert(utxo_list_text(items) == utxo_text_of(items[0]) + ","@ + utxo_text_of(
                    items[1],
                ));
                assert(r@ =~= utxos_ok_text());
            }
            r
        },
        None => error_response("Invalid request body"),
    }
}

/// The fee percentile values: the hundred integers from 100 to 199 in
/// ascending order.
pub open spec fn fee_values() -> Seq<u64> {
    Seq::new(100, |i: int| (100 + i) as u64)
}

/// What the fee percentile operation answers, whatever the body.
pub open spec fn fees_text() -> Seq<char> {
    "["@ + u64_list_text(fee_values()) + "]"@
}

/// Answers a fee percentile request with the fixed ascending sequence.
pub fn handle_get_fee_percentiles() -> (r: String)
    ensures
        r@ == fees_text(),
{
    let mut fees: Vec<u64> = Vec::new();
    let mut n: u64 = 100;
    while n < 200
        invariant
            100 <= n <= 200,
            fees@.len() == n - 100,
            forall|i: int| 0 <= i < fees@.len() ==> fees@[i] == 100 + i,
        decreases 200 - n,
    {
        fees.push(n);
        n = n + 1;
    }
    proof {
        assert(fees@ =~= fee_values());
    }
    u64s_to_json(&fees)
}

/// What the address derivation operation answers, whatever the body.
pub open spec fn p2pkh_text() -> Seq<char> {
    p2pkh_json_text("tb1qdummyaddressxyz1234567890"@)
}

/// Answers an address derivation request with the constant placeholder
/// address.
pub fn handle_get_p2pkh_address() -> (r: String)
    ensures
        r@ == p2pkh_text(),
{
    let response = GetP2pkhAddressResponse {
        address: String::from_str("tb1qdummyaddressxyz1234567890"),
    };
    response.to_json()
}

/// What the send operation answers for a given body: a document that
/// reports success, echoes the decoded destination and amount, and
/// carries the constant placeholder transaction identifier; the error
/// payload when the body does not decode.
pub open spec fn send_route_text(body: Seq<u8>) -> Seq<char> {
    match send_request_of(body) {
        Some(request) => send_json_text(
            true,
            request.0,
            request.1 as nat,
            "dummy-txid-sent-1234567890"@,
        ),
        None => invalid_body_text(),
    }
}

/// Answers a send request. No transfer takes place.
pub fn handle_send(body: &[u8]) -> (r: String)
    ensures
        r@ == send_route_text(body@),
{
    match SendRequestJson::decode(body) {
        Some(request) => {
            let response = SendResponse {
                success: true,
                destination: request.destination_address,
                amount: request.amount_in_satoshi,
                tx_id: String::from_str("dummy-txid-sent-1234567890"),
            };
            response.to_json()
        },
        None => error_response("Invalid request body"),
    }
}

/// What the diagnostic operation answers, whatever the body.
pub open spec fn dummy_test_text() -> Seq<char> {
    dummy_response_json_text(
        "success"@,
        dummy_data_json_text(
            "This is a dummy response"@,
            "2024-01-01T12:00:00.000Z"@,
            test_data_json_text(1, "Test Bitcoin Data"@, "0.001"@, true),
        ),
    )
}

/// Answers a diagnostic request with the constant nested document.
pub fn handle_dummy_test() -> (r: String)
    ensures
        r@ == dummy_test_text(),
{
    let response = DummyTestResponse {
        status: String::from_str("success"),
        data: DummyTestData {
            message: String::from_str("This is a dummy response"),
            timestamp: String::from_str("2024-01-01T12:00:00.000Z"),
            test_data: TestData {
                id: 1,
                name: String::from_str("Test Bitcoin Data"),
                value: String::from_str("0.001"),
                is_test: true,
            },
        },
    };
    proof {
        lemma_diagnostic_amount_decimal();
    }
    response.to_json()
}

} // verus!
