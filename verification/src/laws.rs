//! Properties of the routing layer, stated and proved once and for all
//! inputs: what each route answers, that the fixed answers do not depend
//! on the request body, and that the whole entry point is a function of
//! the URL and body alone.

use vstd::prelude::*;
use crate::handlers::fee_values;
use crate::handlers::fees_text;
use crate::handlers::utxos_ok_text;
use crate::json::escaped;
use crate::json::lemma_escaped_all_plain;
use crate::json::plain_char;
use crate::requests::address_request_of;
use crate::responses::balance_json_text;
use crate::responses::error_json_text;
use crate::responses::welcome_json_text;
use crate::routing::has_substring;
use crate::routing::route_text;

verus! {

/// A URL containing "/get-balance", with a body whose address decodes,
/// is answered with exactly the balance document for that address: the
/// address echoed, the balance fixed at 0.005, the unit fixed at "BTC".
pub proof fn lemma_balance_response(url: Seq<char>, body: Seq<u8>, address: Seq<char>)
    requires
        has_substring(url, "/get-balance"@),
        address_request_of(body) == Some(address),
    ensures
        route_text(url, body) == "{\"address\":\""@ + escaped(address)
            + "\",\"balance\":0.005,\"unit\":\"BTC\"}"@,
{
    reveal_strlit("BTC");
    assert forall|i: int| 0 <= i < "BTC"@.len() implies plain_char(#[trigger] "BTC"@[i]) by {
        assert("BTC"@.len() == 3);
    }
    lemma_escaped_all_plain("BTC"@);
    reveal_strlit("\",\"balance\":");
    reveal_strlit("0.005");
    reveal_strlit(",\"unit\":\"");
    reveal_strlit("\"}");
    reveal_strlit("\",\"balance\":0.005,\"unit\":\"BTC\"}");
    assert(balance_json_text(address, "0.005"@, "BTC"@) =~= "{\"address\":\""@ + escaped(address)
        + "\",\"balance\":0.005,\"unit\":\"BTC\"}"@);
}

/// A URL containing "/get-balance", with a body whose address does not
/// decode, is answered with exactly the uniform error document.
pub proof fn lemma_balance_error(url: Seq<char>, body: Seq<u8>)
    requires
        has_substring(url, "/get-balance"@),
        address_request_of(body) is None,
    ensures
        route_text(url, body) == "{\"error\":\"Invalid request body\"}"@,
{
    reveal_strlit("{\"error\":\"");
    reveal_strlit("Invalid request body");
    reveal_strlit("\"}");
    reveal_strlit("{\"error\":\"Invalid request body\"}");
    assert(error_json_text("Invalid request body"@) =~= "{\"error\":\"Invalid request body\"}"@);
}

/// A URL routed to the UTXO operation, with any body whose address
/// decodes, is answered with one fixed two-element listing: the answer
/// does not depend on the decoded address.
pub proof fn lemma_utxos_fixed(url: Seq<char>, body1: Seq<u8>, body2: Seq<u8>)
    requires
        has_substring(url, "/get-utxos"@),
        !has_substring(url, "/get-balance"@),
        address_request_of(body1) is Some,
        address_request_of(body2) is Some,
    ensures
        route_text(url, body1) == utxos_ok_text(),
        route_text(url, body1) == route_text(url, body2),
{
}

/// A URL routed to the fee percentile operation is answered, whatever
/// the body, with the rendering of one fixed sequence: the hundred
/// contiguous, pairwise distinct integers from 100 to 199, ascending.
pub proof fn lemma_fee_percentiles(url: Seq<char>, body: Seq<u8>)
    requires
        has_substring(url, "/get-current-fee-percentiles"@),
        !has_substring(url, "/get-balance"@),
        !has_substring(url, "/get-utxos"@),
    ensures
        route_text(url, body) == fees_text(),
        fee_values().len() == 100,
        forall|i: int| 0 <= i < 100 ==> fee_values()[i] == 100 + i,
        forall|i: int, j: int| 0 <= i < j < 100 ==> fee_values()[i] < fee_values()[j],
{
}

/// A URL in which none of the routing patterns occurs is answered,
/// whatever the body, with exactly the constant welcome document.
pub proof fn lemma_welcome_fallback(url: Seq<char>, body: Seq<u8>)
    requires
        !has_substring(url, "/get-balance"@),
        !has_substring(url, "/get-utxos"@),
        !has_substring(url, "/get-current-fee-percentiles"@),
        !has_substring(url, "/get-p2pkh-address"@),
        !has_substring(url, "/send"@),
        !has_substring(url, "/dummy-test"@),
    ensures
        route_text(url, body) == "{\"message\":\"Welcome to the Dummy Bitcoin Canister API\"}"@,
{
    let message = "Welcome to the Dummy Bitcoin Canister API"@;
    reveal_strlit("Welcome to the Dummy Bitcoin Canister API");
    assert forall|i: int| 0 <= i < message.len() implies plain_char(#[trigger] message[i]) by {
        assert(message.len() == 41);
    }
    lemma_escaped_all_plain(message);
    reveal_strlit("{\"message\":\"");
    reveal_strlit("\"}");
    reveal_strlit("{\"message\":\"Welcome to the Dummy Bitcoin Canister API\"}");
    assert(welcome_json_text(message) =~= "{\"message\":\"Welcome to the Dummy Bitcoin Canister API\"}"@);
}

/// The full entry point has no state: its answer is a function of the
/// URL and the body alone, so repeating a request with identical input
/// yields identical output.
pub proof fn lemma_route_deterministic(
    url1: Seq<char>,
    body1: Seq<u8>,
    url2: Seq<char>,
    body2: Seq<u8>,
)
    requires
        url1 == url2,
        body1 == body2,
    ensures
        route_text(url1, body1) == route_text(url2, body2),
{
}

} // verus!
