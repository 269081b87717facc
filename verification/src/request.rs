//! The outbound request: method, URL, headers and body.

use vstd::prelude::*;
use vstd::string::*;
use crate::json::{json_text, to_text};
use crate::query::{query_text, query_text_lacks, Pair, QueryParams};

verus! {

/// The HTTP methods that the bridge forwards.
#[derive(Debug, Clone, Copy, PartialEq, Eq)]
pub enum Method {
    Get,
    Post,
    Put,
    Delete,
}

/// The method that a name stands for. Names are matched exactly, in upper
/// case; every other text stands for no method.
pub open spec fn method_named(name: Seq<char>) -> Option<Method> {
    if name == "GET"@ {
        Some(Method::Get)
    } else if name == "POST"@ {
        Some(Method::Post)
    } else if name == "PUT"@ {
        Some(Method::Put)
    } else if name == "DELETE"@ {
        Some(Method::Delete)
    } else {
        None
    }
}

/// Whether two texts are the same.
fn same_text(left: &str, right: &str) -> (same: bool)
    ensures
        same <==> left@ == right@,
{
    left.to_owned() == right.to_owned()
}

impl Method {
    /// Reads a method from its name.
    pub fn from_name(name: &str) -> (method: Option<Method>)
        ensures
            method == method_named(name@),
    {
        if same_text(name, "GET") {
            Some(Method::Get)
        } else if same_text(name, "POST") {
            Some(Method::Post)
        } else if same_text(name, "PUT") {
            Some(Method::Put)
        } else if same_text(name, "DELETE") {
            Some(Method::Delete)
        } else {
            None
        }
    }
}

/// One header line.
#[derive(Debug)]
pub struct Header {
    pub name: String,
    pub value: String,
}

impl View for Header {
    type V = Pair;

    open spec fn view(&self) -> Pair {
        (self.name@, self.value@)
    }
}

/// The header lines as pairs of name and value.
pub open spec fn header_views(headers: Seq<Header>) -> Seq<Pair> {
    headers.map_values(|header: Header| header@)
}

/// A request, ready to be sent.
#[derive(Debug)]
pub struct OutboundRequest {
    pub method: Method,
    pub url: String,
    /// In the order in which they are attached.
    pub headers: Vec<Header>,
    /// The payload; `None` sends no payload at all.
    pub body: Option<String>,
}

/// An outbound request as plain text.
pub struct RequestView {
    pub method: Method,
    pub url: Seq<char>,
    pub headers: Seq<Pair>,
    pub body: Option<Seq<char>>,
}

impl View for OutboundRequest {
    type V = RequestView;

    open spec fn view(&self) -> RequestView {
        RequestView {
            method: self.method,
            url: self.url@,
            headers: header_views(self.headers@),
            body: match self.body {
                Some(text) => Some(text@),
                None => None,
            },
        }
    }
}

/// The target of a request: base and path joined as they are, and behind
/// them, where there is at least one parameter, `?` and the parameters.
pub open spec fn url_text(base: Seq<char>, path: Seq<char>, query: Option<Seq<Pair>>) -> Seq<char> {
    match query {
        Some(pairs) if pairs.len() > 0 => base + path + seq!['?'] + query_text(pairs),
        _ => base + path,
    }
}

/// The value of the `Authorization` header for a token.
pub open spec fn bearer_text(token: Seq<char>) -> Seq<char> {
    "Bearer "@ + token
}

/// The headers of a request: the bearer token always, and the content type
/// for a request that carries a payload.
pub open spec fn header_texts(token: Seq<char>, with_body: bool) -> Seq<Pair> {
    if with_body {
        seq![("Authorization"@, bearer_text(token)), ("Content-Type"@, "application/json"@)]
    } else {
        seq![("Authorization"@, bearer_text(token))]
    }
}

/// The body of a request: the compact JSON text of the value, if there is
/// one.
pub open spec fn body_text(body: Option<serde_json::Value>) -> Option<Seq<char>> {
    match body {
        Some(value) => Some(json_text(value)),
        None => None,
    }
}

/// The request that a description asks for.
pub open spec fn request_for(
    base: Seq<char>,
    path: Seq<char>,
    query: Option<Seq<Pair>>,
    method: Method,
    token: Seq<char>,
    body: Option<serde_json::Value>,
) -> RequestView {
    RequestView {
        method,
        url: url_text(base, path, query),
        headers: header_texts(token, body is Some),
        body: body_text(body),
    }
}

/// Where neither the base, the path nor any parameter holds a `?`, a URL
/// with parameters holds exactly one: the one in front of the parameters.
/// Nothing is escaped, so a `?` in any of the parts shows up in the URL as
/// it is.
pub proof fn url_has_one_question_mark(base: Seq<char>, path: Seq<char>, pairs: Seq<Pair>)
    requires
        pairs.len() > 0,
        !base.contains('?'),
        !path.contains('?'),
        forall|i: int|
            0 <= i < pairs.len() ==> !(#[trigger] pairs[i]).0.contains('?')
                && !pairs[i].1.contains('?'),
    ensures
        ({
            let url = url_text(base, path, Some(pairs));
            let mark = (base.len() + path.len()) as int;
            &&& forall|i: int| 0 <= i < url.len() ==> (url[i] == '?' <==> i == mark)
            &&& url.skip(mark + 1) == query_text(pairs)
        }),
{
    let url = url_text(base, path, Some(pairs));
    let query = query_text(pairs);
    let mark = (base.len() + path.len()) as int;
    query_text_lacks(pairs, '?');
    assert forall|i: int| 0 <= i < url.len() implies (url[i] == '?' <==> i == mark) by {
        if i < base.len() {
            assert(base[i] == url[i]);
        } else if i < mark {
            assert(path[i - base.len()] == url[i]);
        } else if i > mark {
            assert(query[i - mark - 1] == url[i]);
        }
    }
    assert(url.skip(mark + 1) =~= query);
}

/// The parameters of an optional mapping.
pub open spec fn query_view(query_param: Option<&QueryParams>) -> Option<Seq<Pair>> {
    match query_param {
        Some(params) => Some(params@),
        None => None,
    }
}

/// The value behind an optional reference.
pub open spec fn body_view(body: Option<&serde_json::Value>) -> Option<serde_json::Value> {
    match body {
        Some(value) => Some(*value),
        None => None,
    }
}

/// Builds the target URL.
pub fn build_url(base: &str, path: &str, query_param: Option<&QueryParams>) -> (url: String)
    ensures
        url@ == url_text(base@, path@, query_view(query_param)),
{
    let mut url = base.to_owned();
    url.append(path);
    if let Some(params) = query_param {
        if !params.is_empty() {
            proof {
                reveal_strlit("?");
            }
            url.append("?");
            let query = params.query_string();
            url.append(query.as_str());
        }
    }
    url
}

/// Builds the headers.
pub fn build_headers(token: &str, with_body: bool) -> (headers: Vec<Header>)
    ensures
        header_views(headers@) == header_texts(token@, with_body),
{
    let mut value = "Bearer ".to_owned();
    value.append(token);
    let mut headers: Vec<Header> = Vec::new();
    headers.push(Header { name: "Authorization".to_owned(), value });
    if with_body {
        headers.push(
            Header { name: "Content-Type".to_owned(), value: "application/json".to_owned() },
        );
    }
    assert(header_views(headers@) =~= header_texts(token@, with_body));
    headers
}

/// Builds the request that a description asks for, or nothing where the
/// method's name is none of `GET`, `POST`, `PUT`, `DELETE`. A body, where
/// there is one, is sent as its compact JSON text with any method; without
/// one the request has no payload, whatever the method.
pub fn build_request(
    base: &str,
    path: &str,
    query_param: Option<&QueryParams>,
    method: &str,
    token: &str,
    body: Option<&serde_json::Value>,
) -> (request: Option<OutboundRequest>)
    ensures
        request is Some <==> method_named(method@) is Some,
        request matches Some(built) ==> built@ == request_for(
            base@,
            path@,
            query_view(query_param),
            method_named(method@)->Some_0,
            token@,
            body_view(body),
        ),
{
    match Method::from_name(method) {
        Some(method) => {
            let url = build_url(base, path, query_param);
            let headers = build_headers(token, body.is_some());
            let payload = match body {
                Some(value) => Some(to_text(value)),
                None => None,
            };
            Some(OutboundRequest { method, url, headers, body: payload })
        },
        None => None,
    }
}

} // verus!
