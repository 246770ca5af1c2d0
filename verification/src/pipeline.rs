//! The assembled service: one entry point that takes a request and answers
//! a response. An unmapped method/path pair is answered 404 before any
//! guard runs — the guards are hung on the routes, not in front of the
//! router. On a mapped route the content-length guard runs first, then the
//! authorization guard, then the handler; the first rejection ends the
//! request. The laws at the end state what the pipeline promises.

use vstd::prelude::*;

use crate::bytes::{content_length_name, hello_body, html_doc, path_html, path_json, path_rand,
    path_root, stub_500_body};
use crate::codec::{lemma_encode_parse_round_trip, spec_parse_todo};
use crate::controllers::{hello, html, json, rand, return_404, spec_json_response,
    spec_rand_response, stub_500};
use crate::guards::{content_length_guard, header_auth, spec_authorized,
    spec_content_length_guard, spec_header_auth, MAX_CONTENT_LENGTH_BYTES};
use crate::http::{empty_response, respond_empty, spec_header_lookup, Method, Outcome, ReqModel,
    RespModel, Request, Response};
use crate::num::spec_parse_u64;
use crate::query::spec_parse_range;
use crate::router::{route, spec_route, Route};
use crate::todo::TodoModel;

verus! {

/// What the assembled service answers: 404 with an empty body off the
/// routing table; on it, the content-length guard's rejection, else the
/// authorization guard's, else the matched handler's answer.
pub open spec fn spec_response_ok(req: ReqModel, r: RespModel) -> bool {
    let rt = spec_route(req.method, req.path);
    if rt == Route::NoMatch {
        r == empty_response(404)
    } else {
        match spec_content_length_guard(req) {
            Outcome::Reject(status) => r == empty_response(status),
            Outcome::Continue => match spec_header_auth(req) {
                Outcome::Reject(status) => r == empty_response(status),
                Outcome::Continue => match rt {
                    Route::Hello => r == (RespModel { status: 200, body: hello_body() }),
                    Route::Html => r == RespModel { status: 200, body: html_doc() },
                    Route::Json => r == spec_json_response(req.body),
                    Route::Rand => spec_rand_response(req.query, r),
                    Route::NotFoundStub => r == empty_response(404),
                    Route::ServerErrorStub => r == RespModel {
                        status: 200,
                        body: stub_500_body(),
                    },
                    Route::NoMatch => r == empty_response(404),
                },
            },
        }
    }
}

/// Takes one request through the pipeline: router match first, then the
/// content-length guard, then the authorization guard, then the handler.
pub fn handle(req: &Request) -> (r: Response)
    ensures
        spec_response_ok(req@, r@),
{
    let rt = route(req.method, &req.path);
    if matches!(rt, Route::NoMatch) {
        return respond_empty(404);
    }
    match content_length_guard(req) {
        Outcome::Reject(status) => {
            return respond_empty(status);
        },
        Outcome::Continue => {},
    }
    match header_auth(req) {
        Outcome::Reject(status) => {
            return respond_empty(status);
        },
        Outcome::Continue => {},
    }
    match rt {
        Route::Hello => hello(),
        Route::Html => html(),
        Route::Json => json(&req.body),
        Route::Rand => rand(&req.query),
        Route::NotFoundStub => return_404(),
        Route::ServerErrorStub => stub_500(),
        Route::NoMatch => respond_empty(404),
    }
}

/// On a mapped route that the content-length guard lets through, a request
/// without the correct `Authorization` header is answered 401 with an empty
/// body. (An oversized declared length is rejected 400 first, and an
/// unmapped path 404, whatever the header says.)
pub proof fn lemma_unauthorized_rejected(req: ReqModel, r: RespModel)
    requires
        spec_response_ok(req, r),
        spec_route(req.method, req.path) != Route::NoMatch,
        spec_content_length_guard(req) == Outcome::Continue,
        !spec_authorized(req),
    ensures
        r == empty_response(401),
{
}

/// On a mapped route, a request that declares a content length above
/// `MAX_CONTENT_LENGTH_BYTES` is answered 400, with or without the correct
/// `Authorization` header — the size check runs before the identity check.
pub proof fn lemma_oversized_rejected(req: ReqModel, r: RespModel, v: Seq<u8>, n: u64)
    requires
        spec_response_ok(req, r),
        spec_route(req.method, req.path) != Route::NoMatch,
        spec_header_lookup(req.headers, content_length_name()) == Some(v),
        spec_parse_u64(v) == Some(n),
        n > MAX_CONTENT_LENGTH_BYTES,
    ensures
        r == empty_response(400),
{
}

/// The echo law: a well-formed payload posted to the JSON route with an
/// acceptable content length and the correct `Authorization` header comes
/// back as status 200, and the response body decodes to exactly the posted
/// payload.
pub proof fn lemma_json_echo_round_trip(req: ReqModel, r: RespModel, t: TodoModel)
    requires
        spec_response_ok(req, r),
        req.method == Method::Post,
        req.path == path_json(),
        spec_content_length_guard(req) == Outcome::Continue,
        spec_authorized(req),
        spec_parse_todo(req.body) == Some(t),
    ensures
        r.status == 200,
        spec_parse_todo(r.body) == Some(t),
{
    lemma_encode_parse_round_trip(t);
}

/// Any unmapped method/path pair is answered 404 with an empty body,
/// whatever the headers say — the guards are hung on the routes and never
/// see such a request.
pub proof fn lemma_unmapped_not_found(req: ReqModel, r: RespModel)
    requires
        spec_response_ok(req, r),
        spec_route(req.method, req.path) == Route::NoMatch,
    ensures
        r == empty_response(404),
{
}

/// `GET /` with the correct `Authorization` header and an acceptable
/// declared content length is answered 200 with exactly the greeting.
pub proof fn lemma_hello_ok(req: ReqModel, r: RespModel)
    requires
        spec_response_ok(req, r),
        req.method == Method::Get,
        req.path == path_root(),
        spec_content_length_guard(req) == Outcome::Continue,
        spec_authorized(req),
    ensures
        r == (RespModel { status: 200, body: hello_body() }),
{
}

/// An empty or inverted range on the random route is answered 400 with an
/// empty body — it never panics the pipeline and never reaches the
/// sampler.
pub proof fn lemma_empty_range_rejected(req: ReqModel, r: RespModel, start: u64, end: u64)
    requires
        spec_response_ok(req, r),
        req.method == Method::Get,
        req.path == path_rand(),
        spec_content_length_guard(req) == Outcome::Continue,
        spec_authorized(req),
        spec_parse_range(req.query) == Some((start, end)),
        start >= end,
    ensures
        r == empty_response(400),
{
    assert(path_rand().len() == 5 && path_root().len() == 1);
    assert(path_rand()[1] == 114 && path_html()[1] == 104);
    assert(spec_route(req.method, req.path) == Route::Rand);
}

} // verus!
