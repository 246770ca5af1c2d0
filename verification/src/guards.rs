//! The two guards of the pipeline. Each is a pure predicate over one
//! request: it either lets the request through unchanged or short-circuits
//! with a status code and an empty body.

use vstd::prelude::*;

use crate::bytes::{auth_header_name, auth_header_name_vec, auth_token, auth_token_vec,
    bytes_eq, content_length_name, content_length_name_vec};
use crate::http::{spec_header_lookup, header_lookup, Outcome, Request, ReqModel};
use crate::num::{spec_parse_u64, parse_u64};

verus! {

/// The largest declared `Content-Length` the service accepts, in bytes
/// (2 MiB). A larger declared length is rejected before any body byte is
/// read, so an attacker-chosen length cannot drive a huge allocation.
pub const MAX_CONTENT_LENGTH_BYTES: u64 = 2097152;

/// What the content-length guard decides: a missing header passes, an
/// unparseable one passes as well (the guard fails open), and a parsed
/// length above `MAX_CONTENT_LENGTH_BYTES` is rejected with status 400.
pub open spec fn spec_content_length_guard(req: ReqModel) -> Outcome {
    match spec_header_lookup(req.headers, content_length_name()) {
        Some(v) => match spec_parse_u64(v) {
            Some(n) => if n > MAX_CONTENT_LENGTH_BYTES {
                Outcome::Reject(400)
            } else {
                Outcome::Continue
            },
            None => Outcome::Continue,
        },
        None => Outcome::Continue,
    }
}

/// Inspects the declared `Content-Length` and rejects the request when it
/// exceeds `MAX_CONTENT_LENGTH_BYTES`; absent or unparseable headers pass.
pub fn content_length_guard(req: &Request) -> (o: Outcome)
    ensures
        o == spec_content_length_guard(req@),
{
    let name = content_length_name_vec();
    match header_lookup(req, &name) {
        Some(v) => match parse_u64(v) {
            Some(n) => if n > MAX_CONTENT_LENGTH_BYTES {
                Outcome::Reject(400)
            } else {
                Outcome::Continue
            },
            None => Outcome::Continue,
        },
        None => Outcome::Continue,
    }
}

/// The request carries an `Authorization` header whose value is exactly the
/// shared token.
pub open spec fn spec_authorized(req: ReqModel) -> bool {
    spec_header_lookup(req.headers, auth_header_name()) == Some(auth_token())
}

/// What the authorization guard decides: an authorized request passes, any
/// other is rejected with status 401.
pub open spec fn spec_header_auth(req: ReqModel) -> Outcome {
    if spec_authorized(req) {
        Outcome::Continue
    } else {
        Outcome::Reject(401)
    }
}

/// Lets the request through exactly when its `Authorization` header equals
/// the shared token; otherwise rejects it with status 401.
pub fn header_auth(req: &Request) -> (o: Outcome)
    ensures
        o == spec_header_auth(req@),
{
    let name = auth_header_name_vec();
    let token = auth_token_vec();
    match header_lookup(req, &name) {
        Some(v) => if bytes_eq(v, &token) {
            Outcome::Continue
        } else {
            Outcome::Reject(401)
        },
        None => Outcome::Reject(401),
    }
}

} // verus!
