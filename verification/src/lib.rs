//! A verified model of a small HTTP service: a guard pipeline (content-length
//! and authorization checks) wrapped around an exact-match router with a
//! handful of handlers, among them a JSON echo of a `Todo` payload and a
//! bounded random-number page. Everything the pipeline decides is stated in
//! contracts over byte sequences; the network edge itself lives outside this
//! library.

pub mod bytes;
pub mod codec;
pub mod controllers;
pub mod guards;
pub mod http;
pub mod num;
pub mod pipeline;
pub mod query;
pub mod router;
pub mod todo;
