//! The description of an API operation, and the query string of its URL.

use crate::framework::json::{Json, JsonValue};
use crate::framework::request::Method;
use crate::framework::url::{form_encode, form_encoded};
use vstd::prelude::*;

verus! {

/// An operation of the API: what it takes to build the request for one call.
///
/// `ResultType` is the type that the `result` of a successful response is
/// decoded into.
pub trait Endpoint<ResultType = ()> {
    /// The verb of the request.
    fn method(&self) -> Method;

    /// The path of the operation, relative to the base URL of the environment.
    fn path(&self) -> String;

    /// The parameters of the query string, in the order in which they are
    /// written. An endpoint that does not say otherwise has no query.
    fn query(&self) -> (query: Option<Vec<(String, String)>>)
        default_ensures
            query is None,
    {
        None
    }

    /// The payload of the request, sent as JSON. An endpoint that does not
    /// say otherwise has no body.
    fn body(&self) -> (body: Option<Json>)
        default_ensures
            body is None,
    {
        None
    }
}

/// What an [`Endpoint`] reports of itself, as plain data.
#[derive(Debug)]
pub struct Operation {
    pub method: Method,
    pub path: String,
    pub query: Option<Vec<(String, String)>>,
    pub body: Option<Json>,
}

/// The mathematical value of an [`Operation`].
pub struct OperationView {
    pub method: Method,
    pub path: Seq<char>,
    pub query: Option<Seq<(Seq<char>, Seq<char>)>>,
    pub body: Option<JsonValue>,
}

impl View for Operation {
    type V = OperationView;

    open spec fn view(&self) -> OperationView {
        OperationView {
            method: self.method,
            path: self.path@,
            query: match self.query {
                Some(pairs) => Some(pairs.deep_view()),
                None => None,
            },
            body: match self.body {
                Some(json) => Some(json@),
                None => None,
            },
        }
    }
}

/// Whether `operation` holds what the four methods of `endpoint` may return.
pub open spec fn reports<ResultType, E: Endpoint<ResultType>>(
    endpoint: &E,
    operation: Operation,
) -> bool {
    &&& call_ensures(E::method, (endpoint,), operation.method)
    &&& call_ensures(E::path, (endpoint,), operation.path)
    &&& call_ensures(E::query, (endpoint,), operation.query)
    &&& call_ensures(E::body, (endpoint,), operation.body)
}

/// Asks `endpoint` for its verb, path, query and body, each once.
pub fn describe<ResultType, E: Endpoint<ResultType>>(endpoint: &E) -> (operation: Operation)
    ensures
        reports(endpoint, operation),
{
    let method = endpoint.method();
    let path = endpoint.path();
    let query = endpoint.query();
    let body = endpoint.body();
    Operation { method, path, query, body }
}

/// One parameter of a query string: name and value in form encoding, with `=` between them.
pub open spec fn pair_text(pair: (Seq<char>, Seq<char>)) -> Seq<char> {
    form_encoded(pair.0) + "="@ + form_encoded(pair.1)
}

/// The query string of `pairs`: each parameter in its place, with `&` between two of them.
pub open spec fn query_string(pairs: Seq<(Seq<char>, Seq<char>)>) -> Seq<char>
    decreases pairs.len(),
{
    if pairs.len() == 0 {
        Seq::empty()
    } else if pairs.len() == 1 {
        pair_text(pairs[0])
    } else {
        query_string(pairs.drop_last()) + "&"@ + pair_text(pairs.last())
    }
}

/// Writes `pairs` as a query string, in their order.
pub fn serialize_query(pairs: &Vec<(String, String)>) -> (query: String)
    ensures
        query@ == query_string(pairs.deep_view()),
{
    let mut query = String::new();
    let mut i: usize = 0;
    while i < pairs.len()
        invariant
            i <= pairs.len(),
            query@ == query_string(pairs.deep_view().take(i as int)),
        decreases pairs.len() - i,
    {
        let ghost before = pairs.deep_view().take(i as int);
        let ghost after = pairs.deep_view().take(i + 1);
        assert(after.drop_last() == before);
        assert(after.last() == (pairs@[i as int].0@, pairs@[i as int].1@));
        if i > 0 {
            query.append("&");
        }
        let name = form_encode(pairs[i].0.as_str());
        let value = form_encode(pairs[i].1.as_str());
        query.append(name.as_str());
        query.append("=");
        query.append(value.as_str());
        assert(query@ == query_string(after)) by {
            if i == 0 {
                assert(after[0] == after.last());
                assert(query@ =~= pair_text(after.last()));
            } else {
                assert(query@ =~= query_string(before) + "&"@ + pair_text(after.last()));
            }
        }
        i += 1;
    }
    assert(pairs.deep_view().take(pairs.len() as int) == pairs.deep_view());
    query
}

/// A query string keeps the order of its parameters: the query of one
/// list followed by another is the query of the first, then `&`, then the
/// query of the second.
pub proof fn lemma_query_string_of_concat(
    first: Seq<(Seq<char>, Seq<char>)>,
    second: Seq<(Seq<char>, Seq<char>)>,
)
    ensures
        query_string(first + second) == if first.len() == 0 {
            query_string(second)
        } else if second.len() == 0 {
            query_string(first)
        } else {
            query_string(first) + "&"@ + query_string(second)
        },
    decreases second.len(),
{
    if first.len() == 0 {
        assert(first + second == second);
    } else if second.len() == 0 {
        assert(first + second == first);
    } else {
        let all = first + second;
        assert(all.drop_last() == first + second.drop_last());
        assert(all.last() == second.last());
        lemma_query_string_of_concat(first, second.drop_last());
        if second.len() == 1 {
            assert(second[0] == second.last());
        } else {
            assert(query_string(all) == query_string(first) + "&"@ + query_string(
                second.drop_last(),
            ) + "&"@ + pair_text(second.last()));
            assert(query_string(first) + "&"@ + query_string(second.drop_last()) + "&"@
                + pair_text(second.last()) == query_string(first) + "&"@ + (query_string(
                second.drop_last(),
            ) + "&"@ + pair_text(second.last())));
        }
    }
}

} // verus!
