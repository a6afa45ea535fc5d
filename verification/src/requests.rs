//! The request records of the API and their payload decoders.
//!
//! Decoding raw body bytes into a record is delegated to serde_json; the
//! decoded content of a byte sequence is therefore named by uninterpreted
//! spec functions, and every decoder's contract speaks of those names.

use vstd::prelude::*;

verus! {

/// The "address" string field of the JSON object that a body parses to,
/// as `decode_address_request` extracts it; `None` when the body is not
/// a JSON object carrying a string under that key. The result depends on
/// the bytes alone.
pub uninterp spec fn address_request_of(b: Seq<u8>) -> Option<Seq<char>>;

/// The "destinationAddress" string field and "amountInSatoshi" unsigned
/// integer field of the JSON object that a body parses to, as
/// `decode_send_request` extracts them; `None` when either is missing or
/// of the wrong shape. The result depends on the bytes alone.
pub uninterp spec fn send_request_of(b: Seq<u8>) -> Option<(Seq<char>, u64)>;

/// Relies on serde_json::from_slice and serde_json::Value: parses the
/// body as a JSON document and moves out the string under the key
/// "address" of a top-level object; anything else gives `None`.
#[verifier::external_body]
fn decode_address_request(body: &[u8]) -> (r: Option<String>)
    ensures
        r matches Some(a) ==> address_request_of(body@) == Some(a@),
        r is None ==> address_request_of(body@) is None,
{
    match serde_json::from_slice::<serde_json::Value>(body) {
        Ok(serde_json::Value::Object(mut fields)) => match fields.remove("address") {
            Some(serde_json::Value::String(a)) => Some(a),
            _ => None,
        },
        _ => None,
    }
}

/// Relies on serde_json::from_slice, serde_json::Value and
/// serde_json::Value::as_u64: parses the body as a JSON document and
/// reads the string under "destinationAddress" and the unsigned integer
/// under "amountInSatoshi" of a top-level object; anything else gives
/// `None`.
#[verifier::external_body]
fn decode_send_request(body: &[u8]) -> (r: Option<(String, u64)>)
    ensures
        r matches Some(q) ==> send_request_of(body@) == Some((q.0@, q.1)),
        r is None ==> send_request_of(body@) is None,
{
    let parsed: serde_json::Value = match serde_json::from_slice(body) {
        Ok(v) => v,
        Err(_) => return None,
    };
    let destination = match parsed.get("destinationAddress") {
        Some(serde_json::Value::String(a)) => a.clone(),
        _ => return None,
    };
    match parsed.get("amountInSatoshi").and_then(serde_json::Value::as_u64) {
        Some(amount) => Some((destination, amount)),
        None => None,
    }
}

/// The decoded input of the balance operation.
pub struct GetBalanceRequestJson {
    pub address: String,
}

impl GetBalanceRequestJson {
    /// Decodes a request body; `None` when the body does not parse to a
    /// JSON object with a string field "address".
    pub fn decode(body: &[u8]) -> (r: Option<GetBalanceRequestJson>)
        ensures
            r matches Some(q) ==> address_request_of(body@) == Some(q.address@),
            r is None ==> address_request_of(body@) is None,
    {
        match decode_address_request(body) {
            Some(address) => Some(GetBalanceRequestJson { address }),
            None => None,
        }
    }
}

/// The decoded input of the UTXO listing operation. It is decoded
/// exactly like the balance input, and its content is never inspected.
pub struct GetUtxosRequestJson {
    pub address: String,
}

impl GetUtxosRequestJson {
    /// Decodes a request body; `None` when the body does not parse to a
    /// JSON object with a string field "address".
    pub fn decode(body: &[u8]) -> (r: Option<GetUtxosRequestJson>)
        ensures
            r matches Some(q) ==> address_request_of(body@) == Some(q.address@),
            r is None ==> address_request_of(body@) is None,
    {
        match decode_address_request(body) {
            Some(address) => Some(GetUtxosRequestJson { address }),
            None => None,
        }
    }
}

/// The decoded input of the send operation. The wire names of the two
/// fields are "destinationAddress" and "amountInSatoshi".
pub struct SendRequestJson {
    pub destination_address: String,
    pub amount_in_satoshi: u64,
}

impl SendRequestJson {
    /// Decodes a request body; `None` when the body does not parse to a
    /// JSON object with a string field "destinationAddress" and an
    /// unsigned integer field "amountInSatoshi".
    pub fn decode(body: &[u8]) -> (r: Option<SendRequestJson>)
        ensures
            r matches Some(q) ==> send_request_of(body@) == Some(
                (q.destination_address@, q.amount_in_satoshi),
            ),
            r is None ==> send_request_of(body@) is None,
    {
        match decode_send_request(body) {
            Some(q) => Some(SendRequestJson { destination_address: q.0, amount_in_satoshi: q.1 }),
            None => None,
        }
    }
}

} // verus!
