//! Exact-match dispatch on the method/path pair. There are no path
//! parameters: a request matches a route when the method and the whole
//! path are equal, and anything else matches nothing.

use vstd::prelude::*;

use crate::bytes::{bytes_eq, path_404, path_404_vec, path_500, path_500_vec, path_html,
    path_html_vec, path_json, path_json_vec, path_rand, path_rand_vec, path_root, path_root_vec};
use crate::http::Method;

verus! {

/// The handler a method/path pair is dispatched to; `NoMatch` stands for
/// every unmapped pair.
#[derive(Clone, Copy, PartialEq, Eq, Structural, Debug)]
pub enum Route {
    Hello,
    Html,
    Json,
    Rand,
    NotFoundStub,
    ServerErrorStub,
    NoMatch,
}

/// The routing table: `GET /`, `GET /html`, `POST /json`, `GET /rand`,
/// `GET /404`, `GET /500`; everything else is unmapped.
pub open spec fn spec_route(method: Method, path: Seq<u8>) -> Route {
    if method == Method::Get && path == path_root() {
        Route::Hello
    } else if method == Method::Get && path == path_html() {
        Route::Html
    } else if method == Method::Post && path == path_json() {
        Route::Json
    } else if method == Method::Get && path == path_rand() {
        Route::Rand
    } else if method == Method::Get && path == path_404() {
        Route::NotFoundStub
    } else if method == Method::Get && path == path_500() {
        Route::ServerErrorStub
    } else {
        Route::NoMatch
    }
}

/// Dispatches a method/path pair on the routing table.
pub fn route(method: Method, path: &Vec<u8>) -> (r: Route)
    ensures
        r == spec_route(method, path@),
{
    match method {
        Method::Get => {
            if bytes_eq(path, &path_root_vec()) {
                Route::Hello
            } else if bytes_eq(path, &path_html_vec()) {
                Route::Html
            } else if bytes_eq(path, &path_rand_vec()) {
                Route::Rand
            } else if bytes_eq(path, &path_404_vec()) {
                Route::NotFoundStub
            } else if bytes_eq(path, &path_500_vec()) {
                Route::ServerErrorStub
            } else {
                Route::NoMatch
            }
        },
        Method::Post => {
            if bytes_eq(path, &path_json_vec()) {
                Route::Json
            } else {
                Route::NoMatch
            }
        },
        Method::Other => Route::NoMatch,
    }
}

} // verus!
