//! The echoed payload: a `Todo` is a title and a description, carried as
//! UTF-8 bytes. It has no identity and no storage; it is decoded from a
//! request body and encoded back into the response, nothing more.

use vstd::prelude::*;

verus! {

/// The payload the JSON route echoes.
#[derive(Debug)]
pub struct Todo {
    pub title: Vec<u8>,
    pub description: Vec<u8>,
}

/// The mathematical image of a `Todo`.
pub struct TodoModel {
    pub title: Seq<u8>,
    pub description: Seq<u8>,
}

impl View for Todo {
    type V = TodoModel;

    open spec fn view(&self) -> TodoModel {
        TodoModel { title: self.title@, description: self.description@ }
    }
}

} // verus!
