//! Reduces the body of a performed login call to the plain outcome the
//! state machine consumes.
//!
//! The remote service answers with a small JSON object; only four pieces of
//! it matter here: whether it reports success, the issued session token
//! (`sid`), a newly issued device pairing id (`did`), and otherwise the
//! error code that tells an invalid credential, a demanded one-time code
//! and a rejected one apart. The reduction scans for those markers; a
//! success answer that carries no token is treated as malformed, a network
//! failure.

use vstd::prelude::*;
use vstd::string::StrSliceExecFns;

use crate::synology_api::authentication_database::is_ascii_digit;
use crate::synology_api::authentication_database::parse_u32;
use crate::synology_api::authentication_database::parsed_u32;
use crate::synology_api::authentication_manager::LoginOutcome;

verus! {

/// The needle stands in the haystack at position `i`.
pub open spec fn matches_at(haystack: Seq<char>, needle: Seq<char>, i: int) -> bool {
    0 <= i && i + needle.len() <= haystack.len() && haystack.subrange(i, i + needle.len())
        == needle
}

/// The needle stands somewhere in the haystack.
pub open spec fn contains_seq(haystack: Seq<char>, needle: Seq<char>) -> bool {
    exists|i: int| matches_at(haystack, needle, i)
}

/// `i` is the first position where the needle stands.
pub open spec fn is_first_match(haystack: Seq<char>, needle: Seq<char>, i: int) -> bool {
    matches_at(haystack, needle, i) && forall|j: int| 0 <= j < i ==> !matches_at(
        haystack,
        needle,
        j,
    )
}

/// The first position where the needle stands, when it stands anywhere.
pub open spec fn first_match_index(haystack: Seq<char>, needle: Seq<char>) -> int {
    choose|i: int| is_first_match(haystack, needle, i)
}

/// `e` is the position of the first `"` at or after `start`.
pub open spec fn is_first_quote(haystack: Seq<char>, start: int, e: int) -> bool {
    start <= e < haystack.len() && haystack[e] == '"' && forall|k: int|
        start <= k < e ==> haystack[k] != '"'
}

/// What stands between the first occurrence of the needle and the next
/// `"`: the value of a quoted field, `None` when needle or closing quote
/// is missing.
pub open spec fn quoted_value_after(haystack: Seq<char>, needle: Seq<char>) -> Option<Seq<char>> {
    if contains_seq(haystack, needle) {
        let start = first_match_index(haystack, needle) + needle.len();
        if exists|e: int| is_first_quote(haystack, start, e) {
            Some(haystack.subrange(start, choose|e: int| is_first_quote(haystack, start, e)))
        } else {
            None
        }
    } else {
        None
    }
}

/// `e` ends the run of decimal digits that starts at `start`.
pub open spec fn is_digit_run_end(haystack: Seq<char>, start: int, e: int) -> bool {
    start <= e <= haystack.len() && (forall|k: int|
        start <= k < e ==> is_ascii_digit(#[trigger] haystack[k])) && (e == haystack.len()
        || !is_ascii_digit(haystack[e]))
}

/// The number whose digits follow the first occurrence of the needle,
/// `None` when the needle is missing or no digit follows.
pub open spec fn number_after(haystack: Seq<char>, needle: Seq<char>) -> Option<u32> {
    if contains_seq(haystack, needle) {
        let start = first_match_index(haystack, needle) + needle.len();
        parsed_u32(
            haystack.subrange(start, choose|e: int| is_digit_run_end(haystack, start, e)),
        )
    } else {
        None
    }
}

/// The marker of a success answer.
pub open spec fn success_marker() -> Seq<char> {
    "\"success\":true"@
}

/// The marker the session token follows.
pub open spec fn sid_marker() -> Seq<char> {
    "\"sid\":\""@
}

/// The marker a newly issued device pairing id follows.
pub open spec fn did_marker() -> Seq<char> {
    "\"did\":\""@
}

/// The marker the error code follows.
pub open spec fn code_marker() -> Seq<char> {
    "\"code\":"@
}

/// How an error code reads: the remote's codes for a rejected credential,
/// a demanded one-time code and a rejected one-time code; everything else,
/// a missing code included, is a malformed or failed exchange.
pub open spec fn outcome_of_error_code(code: Option<u32>) -> LoginOutcome {
    match code {
        Some(400u32) => LoginOutcome::InvalidCredentials,
        Some(403u32) => LoginOutcome::OneTimeCodeRequired,
        Some(404u32) => LoginOutcome::OneTimeCodeRejected,
        _ => LoginOutcome::NetworkFailure,
    }
}

proof fn lemma_first_match_is_chosen(haystack: Seq<char>, needle: Seq<char>, i: int)
    requires
        is_first_match(haystack, needle, i),
    ensures
        contains_seq(haystack, needle),
        first_match_index(haystack, needle) == i,
{
    assert(contains_seq(haystack, needle)) by {
        assert(matches_at(haystack, needle, i));
    }
    let j = first_match_index(haystack, needle);
    assert(is_first_match(haystack, needle, j)) by {
        assert(is_first_match(haystack, needle, i));
    }
    if j < i {
        assert(matches_at(haystack, needle, j));
        assert(false);
    }
    if j > i {
        assert(matches_at(haystack, needle, i));
        assert(false);
    }
}

proof fn lemma_first_quote_is_chosen(haystack: Seq<char>, start: int, e: int)
    requires
        is_first_quote(haystack, start, e),
    ensures
        (choose|x: int| is_first_quote(haystack, start, x)) == e,
{
    let x = choose|x: int| is_first_quote(haystack, start, x);
    assert(is_first_quote(haystack, start, x)) by {
        assert(is_first_quote(haystack, start, e));
    }
    if x < e {
        assert(haystack[x] != '"');
        assert(false);
    }
    if x > e {
        assert(haystack[e] != '"');
        assert(false);
    }
}

proof fn lemma_digit_run_end_is_chosen(haystack: Seq<char>, start: int, e: int)
    requires
        is_digit_run_end(haystack, start, e),
    ensures
        (choose|x: int| is_digit_run_end(haystack, start, x)) == e,
{
    let x = choose|x: int| is_digit_run_end(haystack, start, x);
    assert(is_digit_run_end(haystack, start, x)) by {
        assert(is_digit_run_end(haystack, start, e));
    }
    if x < e {
        assert(is_ascii_digit(haystack[x]));
        assert(false);
    }
    if x > e {
        assert(is_ascii_digit(haystack[e]));
        assert(false);
    }
}

/// Whether the needle stands in the haystack at position `i`.
fn match_at(haystack: &str, needle: &str, i: usize) -> (r: bool)
    requires
        i + needle@.len() <= haystack@.len(),
        haystack@.len() <= usize::MAX,
    ensures
        r == matches_at(haystack@, needle@, i as int),
{
    let n_len = needle.unicode_len();
    let mut j: usize = 0;
    while j < n_len
        invariant
            n_len == needle@.len(),
            i + n_len <= haystack@.len(),
            haystack@.len() <= usize::MAX,
            0 <= j <= n_len,
            forall|k: int| 0 <= k < j ==> haystack@[i + k] == needle@[k],
        decreases n_len - j,
    {
        let hc = haystack.get_char(i + j);
        let nc = needle.get_char(j);
        if hc != nc {
            proof {
                if matches_at(haystack@, needle@, i as int) {
                    assert(haystack@.subrange(i as int, i + n_len as int)[j as int]
                        == needle@[j as int]);
                }
            }
            return false;
        }
        j = j + 1;
    }
    proof {
        assert(haystack@.subrange(i as int, i + n_len as int) =~= needle@);
    }
    true
}

/// The first position where the needle stands in the haystack, scanning
/// from the front.
fn find_first(haystack: &str, needle: &str) -> (r: Option<usize>)
    ensures
        r matches Some(i) ==> is_first_match(haystack@, needle@, i as int),
        r is None ==> !contains_seq(haystack@, needle@),
{
    let h_len = haystack.unicode_len();
    let n_len = needle.unicode_len();
    if n_len == 0 {
        proof {
            assert(haystack@.subrange(0, 0) =~= needle@);
        }
        return Some(0);
    }
    if n_len > h_len {
        return None;
    }
    let limit = h_len - n_len;
    let mut i: usize = 0;
    while i <= limit
        invariant
            n_len == needle@.len(),
            h_len == haystack@.len(),
            0 < n_len <= h_len,
            limit == h_len - n_len,
            0 <= i <= limit + 1,
            forall|j: int| 0 <= j < i ==> !matches_at(haystack@, needle@, j),
        decreases limit + 1 - i,
    {
        if match_at(haystack, needle, i) {
            return Some(i);
        }
        i = i + 1;
    }
    None
}

/// The position of the first `"` at or after `from`.
fn find_quote(haystack: &str, from: usize) -> (r: Option<usize>)
    requires
        from <= haystack@.len(),
    ensures
        r matches Some(e) ==> is_first_quote(haystack@, from as int, e as int),
        r is None ==> forall|k: int| from <= k < haystack@.len() ==> haystack@[k] != '"',
{
    let len = haystack.unicode_len();
    let mut k = from;
    while k < len
        invariant
            from <= k <= len,
            len == haystack@.len(),
            forall|t: int| from <= t < k ==> haystack@[t] != '"',
        decreases len - k,
    {
        if haystack.get_char(k) == '"' {
            return Some(k);
        }
        k = k + 1;
    }
    None
}

/// The end of the run of decimal digits that starts at `from`.
fn find_digit_run_end(haystack: &str, from: usize) -> (e: usize)
    requires
        from <= haystack@.len(),
    ensures
        from <= e <= haystack@.len(),
        is_digit_run_end(haystack@, from as int, e as int),
{
    let len = haystack.unicode_len();
    let mut k = from;
    while k < len
        invariant
            from <= k <= len,
            len == haystack@.len(),
            forall|t: int| from <= t < k ==> is_ascii_digit(#[trigger] haystack@[t]),
        decreases len - k,
    {
        let v = haystack.get_char(k) as u32;
        if v < 48 || v > 57 {
            proof {
                assert(!is_ascii_digit(haystack@[k as int]));
            }
            return k;
        }
        k = k + 1;
    }
    len
}

/// The value of a quoted field: the characters between the first
/// occurrence of the needle and the next `"`.
fn extract_quoted(haystack: &str, needle: &str) -> (r: Option<String>)
    ensures
        r.deep_view() == quoted_value_after(haystack@, needle@),
{
    let i = match find_first(haystack, needle) {
        Some(i) => i,
        None => {
            return None;
        },
    };
    proof {
        lemma_first_match_is_chosen(haystack@, needle@, i as int);
    }
    let _body_len = haystack.unicode_len();
    let start = i + needle.unicode_len();
    let end = match find_quote(haystack, start) {
        Some(e) => e,
        None => {
            proof {
                assert(forall|e: int| !is_first_quote(haystack@, start as int, e));
            }
            return None;
        },
    };
    proof {
        lemma_first_quote_is_chosen(haystack@, start as int, end as int);
    }
    Some(haystack.substring_char(start, end).to_owned())
}

/// The number whose digits follow the first occurrence of the needle.
fn extract_number(haystack: &str, needle: &str) -> (r: Option<u32>)
    ensures
        r == number_after(haystack@, needle@),
{
    let i = match find_first(haystack, needle) {
        Some(i) => i,
        None => {
            return None;
        },
    };
    proof {
        lemma_first_match_is_chosen(haystack@, needle@, i as int);
    }
    let _body_len = haystack.unicode_len();
    let start = i + needle.unicode_len();
    let end = find_digit_run_end(haystack, start);
    proof {
        lemma_digit_run_end_is_chosen(haystack@, start as int, end as int);
    }
    parse_u32(haystack.substring_char(start, end))
}

/// Reduces an answer body to the outcome the state machine consumes: a
/// success marker with a token yields `Success` carrying that token and
/// any issued pairing id; a success marker without a token is malformed
/// and counts as a network failure; anything else is read through its
/// error code.
pub fn interpret_login_response(body: &str) -> (r: LoginOutcome)
    ensures
        quoted_value_after(body@, sid_marker()) matches Some(t) ==> (contains_seq(
            body@,
            success_marker(),
        ) ==> (r matches LoginOutcome::Success { token, device_id } && token@ == t
            && device_id.deep_view() == quoted_value_after(body@, did_marker()))),
        contains_seq(body@, success_marker()) && quoted_value_after(body@, sid_marker()) is None
            ==> r is NetworkFailure,
        !contains_seq(body@, success_marker()) ==> r == outcome_of_error_code(
            number_after(body@, code_marker()),
        ),
{
    match find_first(body, "\"success\":true") {
        Some(_) => match extract_quoted(body, "\"sid\":\"") {
            Some(token) => {
                let device_id = extract_quoted(body, "\"did\":\"");
                LoginOutcome::Success { token, device_id }
            },
            None => LoginOutcome::NetworkFailure,
        },
        None => match extract_number(body, "\"code\":") {
            Some(code) => {
                if code == 400 {
                    LoginOutcome::InvalidCredentials
                } else if code == 403 {
                    LoginOutcome::OneTimeCodeRequired
                } else if code == 404 {
                    LoginOutcome::OneTimeCodeRejected
                } else {
                    LoginOutcome::NetworkFailure
                }
            },
            None => LoginOutcome::NetworkFailure,
        },
    }
}

} // verus!
