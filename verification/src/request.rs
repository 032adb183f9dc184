//! The request that a caller hands in.

use vstd::prelude::*;

verus! {

/// The values of a sequence of texts.
pub open spec fn texts(values: Seq<String>) -> Seq<Seq<char>> {
    Seq::new(values.len(), |i: int| values[i]@)
}

/// One SQL statement and, optionally, the values of its parameters.
#[derive(Clone, Debug, PartialEq, Eq)]
pub struct QueryRequest {
    query: String,
    params: Option<Vec<String>>,
}

/// The mathematical value of a [`QueryRequest`].
pub ghost struct RequestView {
    /// The text of the statement.
    pub query: Seq<char>,
    /// The parameter values in order, or `None` where the statement is to be
    /// executed as written.
    pub params: Option<Seq<Seq<char>>>,
}

impl View for QueryRequest {
    type V = RequestView;

    closed spec fn view(&self) -> RequestView {
        RequestView {
            query: self.query@,
            params: match self.params {
                Some(values) => Some(texts(values@)),
                None => None,
            },
        }
    }
}

impl QueryRequest {
    /// The request to execute `query`, with `params` where they are given.
    /// Nothing is checked: neither that the text is a statement nor that the
    /// parameters match its placeholders.
    pub fn new(query: String, params: Option<Vec<String>>) -> (request: QueryRequest)
        ensures
            request@.query == query@,
            request@.params == match params {
                Some(values) => Some(texts(values@)),
                None => None::<Seq<Seq<char>>>,
            },
    {
        QueryRequest { query, params }
    }

    /// The text of the statement.
    pub fn query(&self) -> (text: &str)
        ensures
            text@ == self@.query,
    {
        self.query.as_str()
    }

    /// The parameter values, where they were given.
    pub fn params(&self) -> (params: Option<&Vec<String>>)
        ensures
            self@.params == match params {
                Some(values) => Some(texts(values@)),
                None => None::<Seq<Seq<char>>>,
            },
    {
        self.params.as_ref()
    }
}

} // verus!
