//! The router: classifies a request by testing its URL against a fixed,
//! ordered list of substring patterns and dispatches to the first
//! matching operation, falling back to the welcome operation.

use vstd::prelude::*;
use crate::handlers::balance_route_text;
use crate::handlers::dummy_test_text;
use crate::handlers::fees_text;
use crate::handlers::handle_dummy_test;
use crate::handlers::handle_get_balance;
use crate::handlers::handle_get_fee_percentiles;
use crate::handlers::handle_get_p2pkh_address;
use crate::handlers::handle_get_utxos;
use crate::handlers::handle_send;
use crate::handlers::handle_welcome;
use crate::handlers::p2pkh_text;
use crate::handlers::send_route_text;
use crate::handlers::utxos_route_text;
use crate::handlers::welcome_text;

verus! {

/// `pattern` occurs in `text` as a contiguous run of characters.
pub open spec fn has_substring(text: Seq<char>, pattern: Seq<char>) -> bool {
    exists|i: int|
        0 <= i && i + pattern.len() <= text.len() && #[trigger] text.subrange(
            i,
            i + pattern.len() as int,
        ) == pattern
}

/// Whether `pattern` matches `text` starting at position `at`.
fn matches_at(text: &str, pattern: &str, at: usize) -> (r: bool)
    requires
        at + pattern@.len() <= text@.len(),
    ensures
        r == (text@.subrange(at as int, at as int + pattern@.len() as int) == pattern@),
{
    let n = text.unicode_len();
    let m = pattern.unicode_len();
    let ghost window = text@.subrange(at as int, at as int + pattern@.len() as int);
    let mut j: usize = 0;
    while j < m
        invariant
            n == text@.len(),
            m == pattern@.len(),
            at + m <= n,
            j <= m,
            window == text@.subrange(at as int, at as int + m as int),
            forall|k: int| 0 <= k < j ==> text@[at + k] == pattern@[k],
        decreases m - j,
    {
        if text.get_char(at + j) != pattern.get_char(j) {
            proof {
                assert(window[j as int] != pattern@[j as int]);
            }
            return false;
        }
        j += 1;
    }
    proof {
        assert(window =~= pattern@);
    }
    true
}

/// Decides `has_substring` for actual strings.
pub fn contains_pattern(text: &str, pattern: &str) -> (r: bool)
    ensures
        r == has_substring(text@, pattern@),
{
    let n = text.unicode_len();
    let m = pattern.unicode_len();
    if m > n {
        return false;
    }
    if m == 0 {
        proof {
            assert(text@.subrange(0, 0 + pattern@.len() as int) =~= pattern@);
            assert(has_substring(text@, pattern@));
        }
        return true;
    }
    let mut i: usize = 0;
    while i <= n - m
        invariant
            n == text@.len(),
            m == pattern@.len(),
            1 <= m <= n,
            i <= n - m + 1,
            forall|k: int|
                0 <= k < i ==> #[trigger] text@.subrange(k, k + m as int) != pattern@,
        decreases n - m + 1 - i,
    {
        if matches_at(text, pattern, i) {
            proof {
                assert(text@.subrange(i as int, i as int + m as int) == pattern@);
            }
            return true;
        }
        i += 1;
    }
    proof {
        assert forall|k: int|
            0 <= k && k + pattern@.len() <= text@.len() implies #[trigger] text@.subrange(
            k,
            k + pattern@.len() as int,
        ) != pattern@ by {
            assert(k < i);
        }
    }
    false
}

/// What the full entry point answers: the response of the first
/// operation whose pattern occurs in the URL, in this fixed order, and
/// the welcome document when none does.
pub open spec fn route_text(url: Seq<char>, body: Seq<u8>) -> Seq<char> {
    if has_substring(url, "/get-balance"@) {
        balance_route_text(body)
    } else if has_substring(url, "/get-utxos"@) {
        utxos_route_text(body)
    } else if has_substring(url, "/get-current-fee-percentiles"@) {
        fees_text()
    } else if has_substring(url, "/get-p2pkh-address"@) {
        p2pkh_text()
    } else if has_substring(url, "/send"@) {
        send_route_text(body)
    } else if has_substring(url, "/dummy-test"@) {
        dummy_test_text()
    } else {
        welcome_text()
    }
}

/// The full entry point: routes a request by its URL and answers with
/// the JSON body of the selected operation.
pub fn http_request_update(url: &str, body: &[u8]) -> (r: String)
    ensures
        r@ == route_text(url@, body@),
{
    if contains_pattern(url, "/get-balance") {
        handle_get_balance(body)
    } else if contains_pattern(url, "/get-utxos") {
        handle_get_utxos(body)
    } else if contains_pattern(url, "/get-current-fee-percentiles") {
        handle_get_fee_percentiles()
    } else if contains_pattern(url, "/get-p2pkh-address") {
        handle_get_p2pkh_address()
    } else if contains_pattern(url, "/send") {
        handle_send(body)
    } else if contains_pattern(url, "/dummy-test") {
        handle_dummy_test()
    } else {
        handle_welcome()
    }
}

/// The answer of the read-only probe entry point: an instruction to
/// resubmit the request through the full entry point.
pub struct ProbeResponse {
    pub upgrade: bool,
    pub body: Vec<u8>,
}

/// The probe entry point: whatever the request, it performs no routing
/// and answers with an empty-body upgrade instruction.
pub fn http_request(_url: &str, _body: &[u8]) -> (r: ProbeResponse)
    ensures
        r.upgrade,
        r.body@ == Seq::<u8>::empty(),
{
    ProbeResponse { upgrade: true, body: Vec::new() }
}

} // verus!
