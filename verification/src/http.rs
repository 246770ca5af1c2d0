//! The request/response model: methods, headers, bodies, and the outcome a
//! guard hands back. Header lookup is case-insensitive in the header name,
//! as HTTP asks, and takes the first header of a given name.

use vstd::prelude::*;

verus! {

/// The request methods the router distinguishes; anything else is `Other`
/// and matches no route.
#[derive(Clone, Copy, PartialEq, Eq, Structural, Debug)]
pub enum Method {
    Get,
    Post,
    Other,
}

/// An inbound request, reduced to plain values: the path and the query
/// string are kept apart, headers are name/value byte pairs in arrival
/// order, the body is a byte sequence (empty when the request has none).
pub struct Request {
    pub method: Method,
    pub path: Vec<u8>,
    pub query: Vec<u8>,
    pub headers: Vec<(Vec<u8>, Vec<u8>)>,
    pub body: Vec<u8>,
}

/// The mathematical image of a request.
pub struct ReqModel {
    pub method: Method,
    pub path: Seq<u8>,
    pub query: Seq<u8>,
    pub headers: Seq<(Seq<u8>, Seq<u8>)>,
    pub body: Seq<u8>,
}

impl View for Request {
    type V = ReqModel;

    open spec fn view(&self) -> ReqModel {
        ReqModel {
            method: self.method,
            path: self.path@,
            query: self.query@,
            headers: self.headers@.map_values(|p: (Vec<u8>, Vec<u8>)| (p.0@, p.1@)),
            body: self.body@,
        }
    }
}

/// An outbound response: a status code and a body.
pub struct Response {
    pub status: u16,
    pub body: Vec<u8>,
}

/// The mathematical image of a response.
pub struct RespModel {
    pub status: u16,
    pub body: Seq<u8>,
}

impl View for Response {
    type V = RespModel;

    open spec fn view(&self) -> RespModel {
        RespModel { status: self.status, body: self.body@ }
    }
}

/// The model of a response with the given status and an empty body; every
/// guard rejection and the unmapped-route answer take this shape.
pub open spec fn empty_response(status: u16) -> RespModel {
    RespModel { status, body: Seq::<u8>::empty() }
}

/// Builds a response with the given status and an empty body.
pub fn respond_empty(status: u16) -> (r: Response)
    ensures
        r@ == empty_response(status),
{
    let r = Response { status, body: Vec::new() };
    assert(r@.body =~= Seq::<u8>::empty());
    r
}

/// What a guard decides: let the request through unchanged, or short-circuit
/// the pipeline with the given status (the rejection body is always empty).
#[derive(Clone, Copy, PartialEq, Eq, Structural, Debug)]
pub enum Outcome {
    Continue,
    Reject(u16),
}

/// Lowercases one ASCII byte; every other byte is left alone.
pub open spec fn lower_byte(b: u8) -> u8 {
    if 65 <= b <= 90 {
        (b + 32) as u8
    } else {
        b
    }
}

/// Lowercases a byte sequence, ASCII letter by ASCII letter.
pub open spec fn lower_bytes(s: Seq<u8>) -> Seq<u8> {
    s.map_values(|b: u8| lower_byte(b))
}

/// The value of the first header whose name equals `name` up to ASCII case,
/// or `None` when no header has that name.
pub open spec fn spec_header_lookup(headers: Seq<(Seq<u8>, Seq<u8>)>, name: Seq<u8>) -> Option<
    Seq<u8>,
>
    decreases headers.len(),
{
    if headers.len() == 0 {
        None
    } else if lower_bytes(headers[0].0) == lower_bytes(name) {
        Some(headers[0].1)
    } else {
        spec_header_lookup(headers.drop_first(), name)
    }
}

/// Compares two byte vectors up to ASCII case.
fn eq_ignore_ascii_case(a: &Vec<u8>, b: &Vec<u8>) -> (r: bool)
    ensures
        r == (lower_bytes(a@) == lower_bytes(b@)),
{
    if a.len() != b.len() {
        assert(lower_bytes(a@).len() == a@.len());
        assert(lower_bytes(b@).len() == b@.len());
        return false;
    }
    let mut i: usize = 0;
    while i < a.len()
        invariant
            0 <= i <= a@.len(),
            a@.len() == b@.len(),
            forall|j: int| 0 <= j < i ==> lower_byte(a@[j]) == lower_byte(b@[j]),
        decreases a@.len() - i,
    {
        let x = a[i];
        let y = b[i];
        let lx = if 65 <= x && x <= 90 {
            x + 32
        } else {
            x
        };
        let ly = if 65 <= y && y <= 90 {
            y + 32
        } else {
            y
        };
        if lx != ly {
            assert(lower_bytes(a@)[i as int] != lower_bytes(b@)[i as int]);
            return false;
        }
        i += 1;
    }
    assert(lower_bytes(a@) =~= lower_bytes(b@));
    true
}

/// Returns the value of the first header named `name` (up to ASCII case),
/// or `None` when the request carries no such header.
pub fn header_lookup<'a>(req: &'a Request, name: &Vec<u8>) -> (r: Option<&'a Vec<u8>>)
    ensures
        match r {
            Some(v) => spec_header_lookup(req@.headers, name@) == Some(v@),
            None => spec_header_lookup(req@.headers, name@) is None,
        },
{
    let ghost hs = req@.headers;
    assert(hs.skip(0) =~= hs);
    let mut i: usize = 0;
    while i < req.headers.len()
        invariant
            0 <= i <= hs.len(),
            hs == req@.headers,
            hs.len() == req.headers@.len(),
            forall|j: int| 0 <= j < hs.len() ==> hs[j] == (req.headers@[j].0@, req.headers@[j].1@),
            spec_header_lookup(hs.skip(i as int), name@) == spec_header_lookup(hs, name@),
        decreases hs.len() - i,
    {
        let hit = eq_ignore_ascii_case(&req.headers[i].0, name);
        assert(hs.skip(i as int)[0] == hs[i as int]);
        if hit {
            assert(spec_header_lookup(hs.skip(i as int), name@) == Some(hs[i as int].1));
            return Some(&req.headers[i].1);
        }
        assert(hs.skip(i as int).drop_first() =~= hs.skip(i as int + 1));
        i += 1;
    }
    assert(hs.skip(i as int) =~= Seq::<(Seq<u8>, Seq<u8>)>::empty());
    None
}

} // verus!
