//! Positional binding of parameters.

use crate::request::{texts, QueryRequest};
use vstd::prelude::*;

verus! {

#[verifier::external_type_specification]
#[verifier::external_body]
pub struct ExQuery<'a>(tiberius::Query<'a>);

/// The SQL text that a `tiberius::Query` holds.
pub uninterp spec fn query_sql(query: tiberius::Query<'static>) -> Seq<char>;

/// The text parameters that a `tiberius::Query` holds, in the order in which
/// they were bound.
pub uninterp spec fn query_params(query: tiberius::Query<'static>) -> Seq<Seq<char>>;

/// Calls `tiberius::Query::new` with a copy of `text`. The new query holds
/// the given SQL and no parameter.
#[verifier::external_body]
fn new_query(text: &str) -> (query: tiberius::Query<'static>)
    ensures
        query_sql(query) == text@,
        query_params(query) == Seq::<Seq<char>>::empty(),
{
    tiberius::Query::new(text.to_owned())
}

/// Calls `tiberius::Query::bind` with a `String`. The value is put behind the
/// parameters bound so far, as character data; the SQL is left as it was.
#[verifier::external_body]
fn bind_text(query: &mut tiberius::Query<'static>, value: String)
    ensures
        query_sql(*final(query)) == query_sql(*old(query)),
        query_params(*final(query)) == query_params(*old(query)).push(value@),
{
    query.bind(value)
}

/// A statement as it is handed to the server.
#[derive(Debug)]
pub enum Statement {
    /// The text is executed as written, without parameters.
    Verbatim(String),
    /// The query is executed with the parameters bound to it.
    Parameterized(tiberius::Query<'static>),
}

/// The mathematical value of a [`Statement`].
pub ghost struct StatementView {
    /// The text that is executed.
    pub text: Seq<char>,
    /// The bound parameters in order, or `None` for a verbatim statement.
    pub params: Option<Seq<Seq<char>>>,
}

impl View for Statement {
    type V = StatementView;

    open spec fn view(&self) -> StatementView {
        match self {
            Statement::Verbatim(text) => StatementView { text: text@, params: None },
            Statement::Parameterized(query) => StatementView {
                text: query_sql(*query),
                params: Some(query_params(*query)),
            },
        }
    }
}

/// Builds the parameterized query for `text`: every value is bound as text,
/// in the order of `values`.
pub fn bind_params(text: &str, values: &Vec<String>) -> (query: tiberius::Query<'static>)
    ensures
        query_sql(query) == text@,
        query_params(query) == texts(values@),
{
    let mut query = new_query(text);
    let mut i: usize = 0;
    while i < values.len()
        invariant
            i <= values@.len(),
            query_sql(query) == text@,
            query_params(query) == texts(values@).take(i as int),
        decreases values@.len() - i,
    {
        bind_text(&mut query, values[i].clone());
        assert(texts(values@).take(i + 1) =~= texts(values@).take(i as int).push(values@[i as int]@));
        i = i + 1;
    }
    assert(texts(values@).take(i as int) =~= texts(values@));
    query
}

/// Produces the statement for a request. Without parameters the text is
/// taken as it is. With parameters, an empty list included, the statement is
/// parameterized and holds exactly the given values, in the given order.
pub fn bind(request: &QueryRequest) -> (statement: Statement)
    ensures
        statement@.text == request@.query,
        statement@.params == request@.params,
        statement is Verbatim <==> request@.params is None,
{
    match request.params() {
        Some(values) => Statement::Parameterized(bind_params(request.query(), values)),
        None => Statement::Verbatim(request.query().to_owned()),
    }
}

} // verus!
