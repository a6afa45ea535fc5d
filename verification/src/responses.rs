//! The response records of the API and their JSON serialization.
//!
//! Every record serializes to a compact JSON document: fields in
//! declaration order, string values escaped, no whitespace. A record
//! carrying a number field that is not a well-formed decimal literal
//! falls back to the empty-object payload instead of failing.

use vstd::prelude::*;
use crate::json::append_escaped;
use crate::json::append_u64;
use crate::json::dec_str;
use crate::json::decimal_text;
use crate::json::escaped;
use crate::json::is_decimal_str;

verus! {

/// The JSON rendering of a boolean.
pub open spec fn bool_text(b: bool) -> Seq<char> {
    if b {
        "true"@
    } else {
        "false"@
    }
}

/// The fallback payload used when a record cannot be serialized.
pub open spec fn empty_object_text() -> Seq<char> {
    "{}"@
}

/// The output of the balance operation. The balance is carried as the
/// decimal text of the amount, and the unit is the literal "BTC".
pub struct GetBalanceResponse {
    pub address: String,
    pub balance: String,
    pub unit: String,
}

/// The balance document for the given field values.
pub open spec fn balance_json_text(address: Seq<char>, balance: Seq<char>, unit: Seq<char>) -> Seq<
    char,
> {
    "{\"address\":\""@ + escaped(address) + "\",\"balance\":"@ + balance + ",\"unit\":\""@
        + escaped(unit) + "\"}"@
}

/// What serializing a `GetBalanceResponse` yields: its document, or the
/// empty object when the balance text is not a decimal literal.
pub open spec fn encoded_get_balance(address: Seq<char>, balance: Seq<char>, unit: Seq<char>) -> Seq<
    char,
> {
    if decimal_text(balance) {
        balance_json_text(address, balance, unit)
    } else {
        empty_object_text()
    }
}

impl GetBalanceResponse {
    /// Serializes the record to its JSON document.
    pub fn to_json(&self) -> (r: String)
        ensures
            r@ == encoded_get_balance(self.address@, self.balance@, self.unit@),
    {
        if !is_decimal_str(self.balance.as_str()) {
            return String::from_str("{}");
        }
        let mut out = String::from_str("{\"address\":\"");
        append_escaped(&mut out, self.address.as_str());
        out.append("\",\"balance\":");
        out.append(self.balance.as_str());
        out.append(",\"unit\":\"");
        append_escaped(&mut out, self.unit.as_str());
        out.append("\"}");
        out
    }
}

/// One unspent transaction output of the UTXO listing.
pub struct Utxo {
    pub txid: String,
    pub vout: u32,
    pub value: u64,
    pub confirmations: u32,
}

/// The document of one UTXO for the given field values.
pub open spec fn utxo_json_text(txid: Seq<char>, vout: nat, value: nat, confirmations: nat) -> Seq<
    char,
> {
    "{\"txid\":\""@ + escaped(txid) + "\",\"vout\":"@ + dec_str(vout) + ",\"value\":"@ + dec_str(
        value,
    ) + ",\"confirmations\":"@ + dec_str(confirmations) + "}"@
}

/// The document of a UTXO record.
pub open spec fn utxo_text_of(u: Utxo) -> Seq<char> {
    utxo_json_text(u.txid@, u.vout as nat, u.value as nat, u.confirmations as nat)
}

impl Utxo {
    /// Serializes the record to its JSON document.
    pub fn to_json(&self) -> (r: String)
        ensures
            r@ == utxo_text_of(*self),
    {
        let mut out = String::from_str("{\"txid\":\"");
        append_escaped(&mut out, self.txid.as_str());
        out.append("\",\"vout\":");
        append_u64(&mut out, self.vout as u64);
        out.append(",\"value\":");
        append_u64(&mut out, self.value);
        out.append(",\"confirmations\":");
        append_u64(&mut out, self.confirmations as u64);
        out.append("}");
        out
    }
}

/// The comma-separated documents of a sequence of UTXOs.
pub open spec fn utxo_list_text(items: Seq<Utxo>) -> Seq<char>
    decreases items.len(),
{
    if items.len() == 0 {
        Seq::empty()
    } else if items.len() == 1 {
        utxo_text_of(items[0])
    } else {
        utxo_list_text(items.drop_last()) + ","@ + utxo_text_of(items.last())
    }
}

/// Serializes a sequence of UTXOs as a JSON array.
pub fn utxos_to_json(items: &Vec<Utxo>) -> (r: String)
    ensures
        r@ == "["@ + utxo_list_text(items@) + "]"@,
{
    let mut out = String::from_str("[");
    proof {
        assert(items@.subrange(0, 0) =~= Seq::<Utxo>::empty());
        assert("["@ + utxo_list_text(Seq::<Utxo>::empty()) =~= "["@);
    }
    let mut i: usize = 0;
    while i < items.len()
        invariant
            i <= items@.len(),
            out@ == "["@ + utxo_list_text(items@.subrange(0, i as int)),
        decreases items@.len() - i,
    {
        if i > 0 {
            out.append(",");
        }
        let piece = items[i].to_json();
        out.append(piece.as_str());
        proof {
            assert(items@.subrange(0, i as int + 1).drop_last() =~= items@.subrange(0, i as int));
            assert(items@.subrange(0, i as int + 1).last() == items@[i as int]);
            assert(out@ =~= "["@ + utxo_list_text(items@.subrange(0, i as int + 1)));
        }
        i += 1;
    }
    out.append("]");
    proof {
        assert(items@.subrange(0, items@.len() as int) =~= items@);
    }
    out
}

/// The comma-separated decimal renderings of a sequence of integers.
pub open spec fn u64_list_text(items: Seq<u64>) -> Seq<char>
    decreases items.len(),
{
    if items.len() == 0 {
        Seq::empty()
    } else if items.len() == 1 {
        dec_str(items[0] as nat)
    } else {
        u64_list_text(items.drop_last()) + ","@ + dec_str(items.last() as nat)
    }
}

/// Serializes a sequence of unsigned integers as a JSON array.
pub fn u64s_to_json(items: &Vec<u64>) -> (r: String)
    ensures
        r@ == "["@ + u64_list_text(items@) + "]"@,
{
    let mut out = String::from_str("[");
    proof {
        assert(items@.subrange(0, 0) =~= Seq::<u64>::empty());
        assert("["@ + u64_list_text(Seq::<u64>::empty()) =~= "["@);
    }
    let mut i: usize = 0;
    while i < items.len()
        invariant
            i <= items@.len(),
            out@ == "["@ + u64_list_text(items@.subrange(0, i as int)),
        decreases items@.len() - i,
    {
        if i > 0 {
            out.append(",");
        }
        append_u64(&mut out, items[i]);
        proof {
            assert(items@.subrange(0, i as int + 1).drop_last() =~= items@.subrange(0, i as int));
            assert(items@.subrange(0, i as int + 1).last() == items@[i as int]);
            assert(out@ =~= "["@ + u64_list_text(items@.subrange(0, i as int + 1)));
        }
        i += 1;
    }
    out.append("]");
    proof {
        assert(items@.subrange(0, items@.len() as int) =~= items@);
    }
    out
}

/// The output of the send operation.
pub struct SendResponse {
    pub success: bool,
    pub destination: String,
    pub amount: u64,
    pub tx_id: String,
}

/// The send document for the given field values. The wire name of the
/// transaction identifier is "txId".
pub open spec fn send_json_text(
    success: bool,
    destination: Seq<char>,
    amount: nat,
    tx_id: Seq<char>,
) -> Seq<char> {
    "{\"success\":"@ + bool_text(success) + ",\"destination\":\""@ + escaped(destination)
        + "\",\"amount\":"@ + dec_str(amount) + ",\"txId\":\""@ + escaped(tx_id) + "\"}"@
}

impl SendResponse {
    /// Serializes the record to its JSON document.
    pub fn to_json(&self) -> (r: String)
        ensures
            r@ == send_json_text(self.success, self.destination@, self.amount as nat, self.tx_id@),
    {
        let mut out = String::from_str("{\"success\":");
        if self.success {
            out.append("true");
        } else {
            out.append("false");
        }
        out.append(",\"destination\":\"");
        append_escaped(&mut out, self.destination.as_str());
        out.append("\",\"amount\":");
        append_u64(&mut out, self.amount);
        out.append(",\"txId\":\"");
        append_escaped(&mut out, self.tx_id.as_str());
        out.append("\"}");
        out
    }
}

/// The output of the welcome operation.
pub struct WelcomeMessage {
    pub message: String,
}

/// The welcome document for the given message.
pub open spec fn welcome_json_text(message: Seq<char>) -> Seq<char> {
    "{\"message\":\""@ + escaped(message) + "\"}"@
}

impl WelcomeMessage {
    /// Serializes the record to its JSON document.
    pub fn to_json(&self) -> (r: String)
        ensures
            r@ == welcome_json_text(self.message@),
    {
        let mut out = String::from_str("{\"message\":\"");
        append_escaped(&mut out, self.message.as_str());
        out.append("\"}");
        out
    }
}

/// The output of the address derivation operation.
pub struct GetP2pkhAddressResponse {
    pub address: String,
}

/// The address document for the given address.
pub open spec fn p2pkh_json_text(address: Seq<char>) -> Seq<char> {
    "{\"address\":\""@ + escaped(address) + "\"}"@
}

impl GetP2pkhAddressResponse {
    /// Serializes the record to its JSON document.
    pub fn to_json(&self) -> (r: String)
        ensures
            r@ == p2pkh_json_text(self.address@),
    {
        let mut out = String::from_str("{\"address\":\"");
        append_escaped(&mut out, self.address.as_str());
        out.append("\"}");
        out
    }
}

/// The innermost record of the diagnostic output. Its value field is
/// carried as the decimal text of the amount.
pub struct TestData {
    pub id: u32,
    pub name: String,
    pub value: String,
    pub is_test: bool,
}

/// The innermost diagnostic document for the given field values. The
/// wire name of the flag is "isTest".
pub open spec fn test_data_json_text(
    id: nat,
    name: Seq<char>,
    value: Seq<char>,
    is_test: bool,
) -> Seq<char> {
    "{\"id\":"@ + dec_str(id) + ",\"name\":\""@ + escaped(name) + "\",\"value\":"@ + value
        + ",\"isTest\":"@ + bool_text(is_test) + "}"@
}

impl TestData {
    /// Serializes the record to its JSON document, or to the empty
    /// object when the value text is not a decimal literal.
    pub fn to_json(&self) -> (r: String)
        ensures
            r@ == if decimal_text(self.value@) {
                test_data_json_text(self.id as nat, self.name@, self.value@, self.is_test)
            } else {
                empty_object_text()
            },
    {
        if !is_decimal_str(self.value.as_str()) {
            return String::from_str("{}");
        }
        let mut out = String::from_str("{\"id\":");
        append_u64(&mut out, self.id as u64);
        out.append(",\"name\":\"");
        append_escaped(&mut out, self.name.as_str());
        out.append("\",\"value\":");
        out.append(self.value.as_str());
        out.append(",\"isTest\":");
        if self.is_test {
            out.append("true");
        } else {
            out.append("false");
        }
        out.append("}");
        out
    }
}

/// The middle record of the diagnostic output.
pub struct DummyTestData {
    pub message: String,
    pub timestamp: String,
    pub test_data: TestData,
}

/// The middle diagnostic document wrapping an already serialized inner
/// document. The wire name of the inner record is "testData".
pub open spec fn dummy_data_json_text(
    message: Seq<char>,
    timestamp: Seq<char>,
    inner: Seq<char>,
) -> Seq<char> {
    "{\"message\":\""@ + escaped(message) + "\",\"timestamp\":\""@ + escaped(timestamp)
        + "\",\"testData\":"@ + inner + "}"@
}

impl DummyTestData {
    /// Serializes the record to its JSON document, or to the empty
    /// object when the inner value text is not a decimal literal.
    pub fn to_json(&self) -> (r: String)
        ensures
            r@ == if decimal_text(self.test_data.value@) {
                dummy_data_json_text(
                    self.message@,
                    self.timestamp@,
                    test_data_json_text(
                        self.test_data.id as nat,
                        self.test_data.name@,
                        self.test_data.value@,
                        self.test_data.is_test,
                    ),
                )
            } else {
                empty_object_text()
            },
    {
        if !is_decimal_str(self.test_data.value.as_str()) {
            return String::from_str("{}");
        }
        let mut out = String::from_str("{\"message\":\"");
        append_escaped(&mut out, self.message.as_str());
        out.append("\",\"timestamp\":\"");
        append_escaped(&mut out, self.timestamp.as_str());
        out.append("\",\"testData\":");
        let inner = self.test_data.to_json();
        out.append(inner.as_str());
        out.append("}");
        out
    }
}

/// The outermost record of the diagnostic output.
pub struct DummyTestResponse {
    pub status: String,
    pub data: DummyTestData,
}

/// The outermost diagnostic document wrapping an already serialized
/// data document.
pub open spec fn dummy_response_json_text(status: Seq<char>, data: Seq<char>) -> Seq<char> {
    "{\"status\":\""@ + escaped(status) + "\",\"data\":"@ + data + "}"@
}

impl DummyTestResponse {
    /// Serializes the record to its JSON document, or to the empty
    /// object when the inner value text is not a decimal literal.
    pub fn to_json(&self) -> (r: String)
        ensures
            r@ == if decimal_text(self.data.test_data.value@) {
                dummy_response_json_text(
                    self.status@,
                    dummy_data_json_text(
                        self.data.message@,
                        self.data.timestamp@,
                        test_data_json_text(
                            self.data.test_data.id as nat,
                            self.data.test_data.name@,
                            self.data.test_data.value@,
                            self.data.test_data.is_test,
                        ),
                    ),
                )
            } else {
                empty_object_text()
            },
    {
        if !is_decimal_str(self.data.test_data.value.as_str()) {
            return String::from_str("{}");
        }
        let mut out = String::from_str("{\"status\":\"");
        append_escaped(&mut out, self.status.as_str());
        out.append("\",\"data\":");
        let data = self.data.to_json();
        out.append(data.as_str());
        out.append("}");
        out
    }
}

/// The uniform error payload: the message is written into the document
/// as it stands, without escaping.
pub open spec fn error_json_text(message: Seq<char>) -> Seq<char> {
    "{\"error\":\""@ + message + "\"}"@
}

/// Builds the error payload for a plain message.
pub fn error_response(message: &str) -> (r: String)
    ensures
        r@ == error_json_text(message@),
{
    let mut out = String::from_str("{\"error\":\"");
    out.append(message);
    out.append("\"}");
    out
}

} // verus!
