//! The route handlers: the hello text, the static page, the JSON echo, the
//! random-number page, and the two stub responses. Each handler's contract
//! pins its response down; the random page is pinned up to the sampled
//! number, which is only promised to lie in the requested range.

use vstd::prelude::*;

use crate::bytes::{hello_body, hello_body_vec, html_doc, html_doc_vec, rand_prefix,
    rand_prefix_vec, rand_suffix, rand_suffix_vec, stub_500_body, stub_500_body_vec};
use crate::codec::{encode_todo, parse_todo, spec_encode_todo, spec_parse_todo};
use crate::http::{empty_response, respond_empty, RespModel, Response};
use crate::num::{fmt_u64, u64_to_dec};
use crate::query::{parse_range, spec_parse_range};

verus! {

/// The hello route: status 200 and the fixed greeting.
pub fn hello() -> (r: Response)
    ensures
        r@ == (RespModel { status: 200, body: hello_body() }),
{
    Response { status: 200, body: hello_body_vec() }
}

/// The static page route: status 200 and the fixed document.
pub fn html() -> (r: Response)
    ensures
        r@ == (RespModel { status: 200, body: html_doc() }),
{
    Response { status: 200, body: html_doc_vec() }
}

/// The not-found stub route: it always answers 404 with an empty body.
pub fn return_404() -> (r: Response)
    ensures
        r@ == empty_response(404),
{
    respond_empty(404)
}

/// The error stub route: a literal `500` body under a success status; it
/// demonstrates a body, it does not simulate a failure.
pub fn stub_500() -> (r: Response)
    ensures
        r@ == (RespModel { status: 200, body: stub_500_body() }),
{
    Response { status: 200, body: stub_500_body_vec() }
}

/// What the JSON echo answers: the canonical re-encoding of the decoded
/// payload under status 200, or status 400 with an empty body when the
/// request body is not a well-formed payload.
pub open spec fn spec_json_response(body: Seq<u8>) -> RespModel {
    match spec_parse_todo(body) {
        Some(t) => RespModel { status: 200, body: spec_encode_todo(t) },
        None => empty_response(400),
    }
}

/// The JSON echo route: decodes the body as a `Todo` and encodes it back;
/// a malformed body is rejected with status 400.
pub fn json(body: &Vec<u8>) -> (r: Response)
    ensures
        r@ == spec_json_response(body@),
{
    match parse_todo(body) {
        Some(t) => Response { status: 200, body: encode_todo(&t) },
        None => respond_empty(400),
    }
}

/// The random-number page for the sampled value `n`.
pub open spec fn rand_page(n: u64) -> Seq<u8> {
    rand_prefix() + u64_to_dec(n as nat) + rand_suffix()
}

/// What the random route answers: for a query whose `start` and `end`
/// parse and satisfy `start < end`, status 200 and the page of some number
/// in `[start, end)`; for a missing or malformed parameter, or an empty
/// range, status 400 with an empty body.
pub open spec fn spec_rand_response(query: Seq<u8>, r: RespModel) -> bool {
    match spec_parse_range(query) {
        Some((start, end)) => if start < end {
            r.status == 200 && (exists|n: u64| start <= n < end && r.body == rand_page(n))
        } else {
            r == empty_response(400)
        },
        None => r == empty_response(400),
    }
}

/// Relies on `rand::thread_rng` and `rand::Rng::gen_range` on a nonempty
/// half-open range: the sample lies in `[start, end)`. `gen_range` panics
/// on an empty range, which the precondition rules out.
#[verifier::external_body]
fn random_in_range(start: u64, end: u64) -> (r: u64)
    requires
        start < end,
    ensures
        start <= r < end,
{
    ::rand::Rng::gen_range(&mut ::rand::thread_rng(), start..end)
}

/// The random route: parses `start` and `end` from the query string and
/// answers a page with a sampled number in `[start, end)`; an absent or
/// malformed parameter, or an empty range, is rejected with status 400.
pub fn rand(query: &Vec<u8>) -> (r: Response)
    ensures
        spec_rand_response(query@, r@),
{
    match parse_range(query) {
        Some((start, end)) => {
            if start < end {
                let n = random_in_range(start, end);
                let mut body = rand_prefix_vec();
                let mut digits = fmt_u64(n);
                body.append(&mut digits);
                let mut tail = rand_suffix_vec();
                body.append(&mut tail);
                assert(body@ =~= rand_page(n));
                let resp = Response { status: 200, body };
                assert(start <= n < end && resp@.body == rand_page(n));
                resp
            } else {
                respond_empty(400)
            }
        },
        None => respond_empty(400),
    }
}

} // verus!
