//! Routing and the two request handlers.
//!
//! A request is modelled by its path. The root path `/` is answered with a
//! fixed greeting; a path made of exactly one non-empty segment is answered
//! by comparing that segment against the process secret; every other path
//! is not found.

use crate::secret::State;
use vstd::prelude::*;
use vstd::string::StrSliceExecFns;
use vstd::string::StringSliceAdditionalSpecFns;
use vstd::utf8::decode_utf8;
use vstd::utf8::encode_utf8;

verus! {

/// The fixed greeting body, as bytes.
pub open spec fn greeting_body() -> Seq<u8> {
    "Hello!".spec_bytes()
}

/// The body sent when the candidate equals the secret, as bytes.
pub open spec fn validated_body() -> Seq<u8> {
    "Secret validated!".spec_bytes()
}

/// The body sent when the candidate differs from the secret, as bytes.
pub open spec fn still_safe_body() -> Seq<u8> {
    "The secret is still safe!".spec_bytes()
}

/// The body of a not-found response: empty.
pub open spec fn not_found_body() -> Seq<u8> {
    Seq::<u8>::empty()
}

/// The body of the secret check: validated exactly on byte-for-byte
/// equality, the fixed refusal otherwise.
pub open spec fn check_body(candidate: Seq<char>, secret: Seq<char>) -> Seq<u8> {
    if candidate == secret {
        validated_body()
    } else {
        still_safe_body()
    }
}

/// The root path `/`.
pub open spec fn is_root_path(p: Seq<char>) -> bool {
    p.len() == 1 && p[0] == '/'
}

/// A path of exactly one non-empty segment: `/` followed by at least one
/// character, none of which is another `/`.
pub open spec fn is_single_segment_path(p: Seq<char>) -> bool {
    &&& p.len() >= 2
    &&& p[0] == '/'
    &&& forall|i: int| 1 <= i < p.len() ==> #[trigger] p[i] != '/'
}

/// The candidate carried by a single-segment path: everything after the
/// leading `/`.
pub open spec fn segment_of(p: Seq<char>) -> Seq<char> {
    p.subrange(1, p.len() as int)
}

/// The status of the response to a GET of the given path: 200 for the two
/// routes, 404 for everything else.
pub open spec fn response_status(p: Seq<char>) -> int {
    if is_root_path(p) || is_single_segment_path(p) {
        200
    } else {
        404
    }
}

/// The body of the response to a GET of the given path, given the secret.
pub open spec fn response_body(p: Seq<char>, secret: Seq<char>) -> Seq<u8> {
    if is_root_path(p) {
        greeting_body()
    } else if is_single_segment_path(p) {
        check_body(segment_of(p), secret)
    } else {
        not_found_body()
    }
}

/// Where a path is dispatched: the greeting route, the secret-check route
/// with the captured candidate, or nowhere.
pub enum Route {
    Greeting,
    CheckSecret(String),
    NotFound,
}

/// Dispatches a path to its route: `/` to the greeting, `/{candidate}`
/// (one non-empty segment) to the secret check, anything else to not found.
pub fn match_route(path: &str) -> (r: Route)
    ensures
        match r {
            Route::Greeting => is_root_path(path@),
            Route::CheckSecret(c) => is_single_segment_path(path@) && c@ == segment_of(path@),
            Route::NotFound => !is_root_path(path@) && !is_single_segment_path(path@),
        },
{
    let n = path.unicode_len();
    if n == 0 {
        return Route::NotFound;
    }
    if path.get_char(0) != '/' {
        return Route::NotFound;
    }
    if n == 1 {
        return Route::Greeting;
    }
    let mut i: usize = 1;
    while i < n
        invariant
            1 <= i <= n,
            n == path@.len(),
            n >= 2,
            path@[0] == '/',
            forall|j: int| 1 <= j < i ==> #[trigger] path@[j] != '/',
        decreases n - i,
    {
        if path.get_char(i) == '/' {
            return Route::NotFound;
        }
        i = i + 1;
    }
    let segment = path.substring_char(1, n);
    Route::CheckSecret(segment.to_owned())
}

/// The greeting handler: always the same fixed bytes.
pub fn greeting() -> (r: Vec<u8>)
    ensures
        r@ == greeting_body(),
{
    "Hello!".as_bytes_vec()
}

/// The secret-check handler: one full-string, case-sensitive equality test
/// against the process secret, and one of two fixed bodies.
pub fn check_secret(candidate: String, state: &State) -> (r: Vec<u8>)
    ensures
        r@ == check_body(candidate@, state.secret@),
{
    if candidate == state.secret {
        "Secret validated!".as_bytes_vec()
    } else {
        "The secret is still safe!".as_bytes_vec()
    }
}

/// A response: a status code and a body.
pub struct Response {
    pub status: u16,
    pub body: Vec<u8>,
}

/// Answers a GET of the given path against the given state. The response
/// is a function of the path and the secret alone, and the state is never
/// mutated, so identical requests always get identical responses.
pub fn handle_get(path: &str, state: &State) -> (r: Response)
    ensures
        r.status as int == response_status(path@),
        r.body@ == response_body(path@, state.secret@),
{
    match match_route(path) {
        Route::Greeting => Response { status: 200, body: greeting() },
        Route::CheckSecret(candidate) => Response {
            status: 200,
            body: check_secret(candidate, state),
        },
        Route::NotFound => Response { status: 404, body: Vec::new() },
    }
}

/// The three fixed message bodies are pairwise distinct, so a response
/// body tells which outcome happened.
pub proof fn lemma_fixed_bodies_distinct()
    ensures
        validated_body() != still_safe_body(),
        greeting_body() != validated_body(),
        greeting_body() != still_safe_body(),
{
    broadcast use vstd::utf8::encode_utf8_decode_utf8;

    reveal_strlit("Hello!");
    reveal_strlit("Secret validated!");
    reveal_strlit("The secret is still safe!");
    assert(decode_utf8(encode_utf8("Hello!"@)) == "Hello!"@);
    assert(decode_utf8(encode_utf8("Secret validated!"@)) == "Secret validated!"@);
    assert(decode_utf8(encode_utf8("The secret is still safe!"@)) == "The secret is still safe!"@);
    assert("Hello!"@.len() == 6);
    assert("Secret validated!"@.len() == 17);
    assert("The secret is still safe!"@.len() == 25);
}

/// A candidate is validated exactly when it equals the secret
/// byte-for-byte; every other candidate, and only those, gets the fixed
/// "still safe" body.
pub proof fn lemma_validated_iff_equal(candidate: Seq<char>, secret: Seq<char>)
    ensures
        candidate == secret <==> check_body(candidate, secret) == validated_body(),
        candidate != secret <==> check_body(candidate, secret) == still_safe_body(),
{
    lemma_fixed_bodies_distinct();
}

/// Exactness of the comparison: a candidate of a different length (a
/// character removed or added), or of equal length with any one character
/// altered (which includes a change of case), is rejected.
pub proof fn lemma_altered_candidate_rejected(candidate: Seq<char>, secret: Seq<char>)
    requires
        candidate.len() != secret.len() || exists|i: int|
            0 <= i < secret.len() && candidate[i] != secret[i],
    ensures
        check_body(candidate, secret) == still_safe_body(),
{
}

/// No partial credit: a candidate that embeds the whole secret with
/// anything prepended or appended is still rejected.
pub proof fn lemma_affixed_candidate_rejected(prefix: Seq<char>, secret: Seq<char>, suffix: Seq<char>)
    requires
        prefix.len() + suffix.len() > 0,
    ensures
        check_body(prefix + secret + suffix, secret) == still_safe_body(),
{
    assert((prefix + secret + suffix).len() == prefix.len() + secret.len() + suffix.len());
    lemma_altered_candidate_rejected(prefix + secret + suffix, secret);
}

/// The greeting route is constant: the root path always gets status 200
/// and the fixed greeting body, whatever the secret is.
pub proof fn lemma_root_always_greets(p: Seq<char>, secret: Seq<char>)
    requires
        is_root_path(p),
    ensures
        response_status(p) == 200,
        response_body(p, secret) == greeting_body(),
{
}

/// Statelessness: the response is a function of the path and the secret
/// alone, and no handler mutates the state, so repeating the same request
/// against the same state any number of times yields the identical
/// response.
pub proof fn lemma_repeated_request_same_response(p1: Seq<char>, p2: Seq<char>, secret: Seq<char>)
    requires
        p1 == p2,
    ensures
        response_status(p1) == response_status(p2),
        response_body(p1, secret) == response_body(p2, secret),
{
}

} // verus!
