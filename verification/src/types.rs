//! The envelope of an outgoing command.

use vstd::prelude::*;

verus! {

/// A command for the feed: a method, its parameters and an id.
#[derive(Clone, Debug, PartialEq, Eq)]
pub struct Request {
    pub method: String,
    pub params: Vec<String>,
    pub id: u64,
}

/// The mathematical value of a [`Request`].
pub ghost struct RequestModel {
    pub method: Seq<char>,
    pub params: Seq<Seq<char>>,
    pub id: u64,
}

/// The texts of a vector, as sequences of characters.
pub open spec fn texts_model(texts: Seq<String>) -> Seq<Seq<char>> {
    Seq::new(texts.len(), |i: int| texts[i]@)
}

impl View for Request {
    type V = RequestModel;

    open spec fn view(&self) -> RequestModel {
        RequestModel { method: self.method@, params: texts_model(self.params@), id: self.id }
    }
}

} // verus!
