//! The routing of the small HTTP echo service.

use vstd::prelude::*;
use crate::text::str_eq;

verus! {

/// The request methods the service tells apart.
#[derive(Clone, Copy, Debug, PartialEq, Eq, Structural)]
pub enum HttpMethod {
    Get,
    Post,
    Other,
}

/// How a request is answered.
#[derive(Clone, Copy, Debug, PartialEq, Eq, Structural)]
pub enum EchoRoute {
    /// The index text, with its length as the content length.
    Index,
    /// The request body, with the request's content length if it has one.
    Echo,
    /// Status 404.
    NotFound,
}

/// `GET /` and `GET /echo` get the index, `POST /echo` gets its body back,
/// everything else is not found.
pub open spec fn route_spec(method: HttpMethod, path: Seq<char>) -> EchoRoute {
    if method == HttpMethod::Get && (path == "/"@ || path == "/echo"@) {
        EchoRoute::Index
    } else if method == HttpMethod::Post && path == "/echo"@ {
        EchoRoute::Echo
    } else {
        EchoRoute::NotFound
    }
}

/// Only `POST /echo` is echoed; only `GET /` and `GET /echo` get the index;
/// every other method and path is answered with 404.
pub proof fn lemma_route_answers(method: HttpMethod, path: Seq<char>)
    ensures
        route_spec(method, path) == EchoRoute::Echo <==> (method == HttpMethod::Post && path
            == "/echo"@),
        route_spec(method, path) == EchoRoute::Index <==> (method == HttpMethod::Get && (path == "/"@
            || path == "/echo"@)),
        route_spec(method, path) == EchoRoute::NotFound <==> !(method == HttpMethod::Post && path
            == "/echo"@) && !(method == HttpMethod::Get && (path == "/"@ || path == "/echo"@)),
{
}

/// How the echo service answers a request with this method and path.
pub fn route(method: HttpMethod, path: &str) -> (r: EchoRoute)
    ensures
        r == route_spec(method, path@),
        r == EchoRoute::Echo <==> (method == HttpMethod::Post && path@ == "/echo"@),
        r == EchoRoute::Index <==> (method == HttpMethod::Get && (path@ == "/"@ || path@ == "/echo"@)),
        r == EchoRoute::NotFound <==> !(method == HttpMethod::Post && path@ == "/echo"@) && !(method
            == HttpMethod::Get && (path@ == "/"@ || path@ == "/echo"@)),
{
    let is_root = str_eq(path, "/");
    let is_echo = str_eq(path, "/echo");
    match method {
        HttpMethod::Get => if is_root || is_echo {
            EchoRoute::Index
        } else {
            EchoRoute::NotFound
        },
        HttpMethod::Post => if is_echo {
            EchoRoute::Echo
        } else {
            EchoRoute::NotFound
        },
        HttpMethod::Other => EchoRoute::NotFound,
    }
}

} // verus!
