//! The route table: one greeting under `/api/hello`, traced at info level.
//!
//! The table itself is an `axum::Router`. This file builds it, and says
//! what it holds through three names: [`replies`], [`trace_layers`] and
//! [`has_own_fallback`].

use vstd::prelude::*;
use crate::report::Level;

verus! {

/// `axum::Router`, taken as it is: nothing of its inside is known here.
#[verifier::external_type_specification]
#[verifier::external_body]
#[verifier::reject_recursive_types(S)]
pub struct ExRouter<S>(axum::Router<S>);

/// The methods of a request that a route can tell apart.
#[derive(Clone, Copy, Debug, PartialEq, Eq, Structural)]
pub enum Method {
    Get,
    Head,
    Post,
    Put,
    Delete,
    Options,
    Patch,
    Trace,
    Connect,
}

/// What a handler answers: the status, and the characters of the body.
pub struct Reply {
    pub status: u16,
    pub body: Seq<char>,
}

/// What is registered at one path: each method that a handler takes there,
/// with its answer.
pub type MethodTable = Map<Method, Reply>;

/// A route table: each registered path, with what is registered there.
pub type RouteTable = Map<Seq<char>, Map<Method, Reply>>;

/// The levels of one trace layer: that of the span it opens for a request,
/// and that of the line it writes for the response.
#[derive(Clone, Copy, Debug, PartialEq, Eq, Structural)]
pub struct TraceLevels {
    pub span: Level,
    pub response: Level,
}

/// The route table of a router: each path that is registered in it, and
/// for each method that a handler takes on that path, what the handler
/// answers.
pub uninterp spec fn replies(router: axum::Router) -> Map<Seq<char>, Map<Method, Reply>>;

/// The request tracing around a router's routes: one entry for each trace
/// layer, innermost first.
pub uninterp spec fn trace_layers(router: axum::Router) -> Seq<TraceLevels>;

/// Whether a fallback of its own was set on the router. Where none was, a
/// request for a path that is not in the table gets the framework's own
/// answer, not found.
pub uninterp spec fn has_own_fallback(router: axum::Router) -> bool;

/// The body of the greeting.
pub open spec fn greeting_text() -> Seq<char> {
    "Hello, world!"@
}

/// What a path answers where the greeting is registered for GET: a GET
/// gets the greeting, a HEAD gets the same status and no body, and no
/// other method is taken.
pub open spec fn greeting_route() -> MethodTable {
    map![
        Method::Get => Reply { status: 200, body: greeting_text() },
        Method::Head => Reply { status: 200, body: Seq::empty() },
    ]
}

/// The greeting: the same text on every call, with nothing after the
/// exclamation mark.
pub fn greeting() -> (text: &'static str)
    ensures
        text@ == greeting_text(),
        text@.len() == 13,
        !text@.contains('\n'),
{
    proof {
        reveal_strlit("Hello, world!");
    }
    "Hello, world!"
}

/// The route table of the server: the greeting at `/api/hello`, and
/// nothing else.
pub open spec fn server_table() -> RouteTable {
    map!["/api/hello"@ => greeting_route()]
}

/// What a table of literal paths answers to a request: the answer of the
/// handler that is registered for the method at exactly that path, or
/// `None` where there is none and the request is left to the fallback.
pub open spec fn answer(table: RouteTable, method: Method, path: Seq<char>) -> Option<Reply> {
    if table.dom().contains(path) && table[path].dom().contains(method) {
        Some(table[path][method])
    } else {
        None
    }
}

/// The server's table answers a GET on `/api/hello` with status 200 and
/// the greeting, byte for byte. It has a handler for no other path, and on
/// that path for no other method but HEAD, which gets the same status and
/// never the greeting. Every other request is left to the fallback.
pub proof fn law_only_the_greeting_is_routed(method: Method, path: Seq<char>)
    ensures
        answer(server_table(), Method::Get, "/api/hello"@) == Some(
            Reply { status: 200, body: "Hello, world!"@ },
        ),
        answer(server_table(), method, path) is Some <==> path == "/api/hello"@ && (method
            == Method::Get || method == Method::Head),
        answer(server_table(), method, path) matches Some(reply) ==> reply.status == 200 && (
        reply.body == "Hello, world!"@ <==> method == Method::Get),
{
    reveal_strlit("Hello, world!");
    assert(Seq::<char>::empty().len() != "Hello, world!"@.len());
}

/// A path that the router takes literally: it starts with a slash, does
/// not end with one, and holds none of the characters that mark a capture.
pub open spec fn is_plain_path(path: Seq<char>) -> bool {
    &&& path.len() >= 2
    &&& path[0] == '/'
    &&& path.last() != '/'
    &&& forall|i: int|
        0 <= i < path.len() ==> #[trigger] path[i] != '{' && path[i] != '}' && path[i] != ':'
            && path[i] != '*'
}

/// A route table whose paths are all taken literally.
pub open spec fn is_plain_table(table: RouteTable) -> bool {
    forall|path: Seq<char>| #[trigger] table.dom().contains(path) ==> is_plain_path(path)
}

/// A route table that has room for `more` routes: a router numbers its
/// routes with a `u32`.
pub open spec fn has_room(table: RouteTable, more: nat) -> bool {
    table.dom().finite() && table.dom().len() + more <= u32::MAX
}

/// Whether `path` is `prefix` followed by a path of `inner`.
pub open spec fn is_nested_path(prefix: Seq<char>, inner: RouteTable, path: Seq<char>) -> bool {
    &&& path.len() >= prefix.len()
    &&& path.subrange(0, prefix.len() as int) == prefix
    &&& inner.dom().contains(path.skip(prefix.len() as int))
}

/// The table `outer` with every route of `inner` added under `prefix`.
pub open spec fn nested(outer: RouteTable, prefix: Seq<char>, inner: RouteTable) -> RouteTable {
    Map::new(
        |path: Seq<char>| outer.dom().contains(path) || is_nested_path(prefix, inner, path),
        |path: Seq<char>|
            if outer.dom().contains(path) {
                outer[path]
            } else {
                inner[path.skip(prefix.len() as int)]
            },
    )
}

/// Nesting a table of one route into an empty one leaves one route: the
/// prefix followed by the inner path, with the inner reply.
proof fn lemma_nested_single(prefix: Seq<char>, path: Seq<char>, reply: MethodTable)
    ensures
        nested(RouteTable::empty(), prefix, RouteTable::empty().insert(path, reply))
            == RouteTable::empty().insert(prefix + path, reply),
{
    let inner = RouteTable::empty().insert(path, reply);
    let whole = prefix + path;
    assert(whole.subrange(0, prefix.len() as int) == prefix);
    assert(whole.skip(prefix.len() as int) == path);
    assert forall|other: Seq<char>| is_nested_path(prefix, inner, other) implies other
        == whole by {
        assert(other == other.subrange(0, prefix.len() as int) + other.skip(prefix.len() as int));
    }
    assert(nested(RouteTable::empty(), prefix, inner) =~= RouteTable::empty().insert(
        whole,
        reply,
    ));
}

/// `axum::Router::new`: a router with no route, no layer and no fallback
/// of its own.
#[verifier::external_body]
fn empty_router() -> (router: axum::Router)
    ensures
        replies(router) == RouteTable::empty(),
        trace_layers(router) == Seq::<TraceLevels>::empty(),
        !has_own_fallback(router),
{
    axum::Router::new()
}

/// `axum::Router::route` with `axum::routing::get` around a handler that
/// answers with [`greeting`]: the path is added to the table. A GET on it
/// is answered with status 200 and the greeting as the body, a HEAD with
/// the same status and no body, and no other method is taken. Layers and
/// fallback stay as they are.
///
/// The call panics on a path that is malformed or already taken, and when
/// the router runs out of numbers for its routes; a route that is added
/// after a layer is not wrapped in it. All of these are left out.
#[verifier::external_body]
fn route_greeting(router: axum::Router, path: &str) -> (out: axum::Router)
    requires
        is_plain_path(path@),
        is_plain_table(replies(router)),
        has_room(replies(router), 1),
        !replies(router).dom().contains(path@),
        trace_layers(router).len() == 0,
    ensures
        replies(out) == replies(router).insert(path@, greeting_route()),
        trace_layers(out) == trace_layers(router),
        has_own_fallback(out) == has_own_fallback(router),
{
    router.route(path, axum::routing::get(|| std::future::ready(greeting())))
}

/// `axum::Router::nest`: every route of `inner` is registered in `router`
/// under `prefix` followed by its own path, and answers as before. Layers
/// and fallback of `router` stay as they are.
///
/// The call panics on a malformed prefix, on a path that is already
/// taken, and when the router runs out of numbers for its routes; a
/// fallback of `inner` would be nested too. All of these are left out.
#[verifier::external_body]
fn nest(router: axum::Router, prefix: &str, inner: axum::Router) -> (out: axum::Router)
    requires
        is_plain_path(prefix@),
        is_plain_table(replies(router)),
        is_plain_table(replies(inner)),
        replies(inner).dom().finite(),
        has_room(replies(router), replies(inner).dom().len()),
        forall|path: Seq<char>| #[trigger]
            replies(router).dom().contains(path) ==> !is_nested_path(
                prefix@,
                replies(inner),
                path,
            ),
        trace_layers(router).len() == 0,
        trace_layers(inner).len() == 0,
        !has_own_fallback(inner),
    ensures
        replies(out) == nested(replies(router), prefix@, replies(inner)),
        trace_layers(out) == trace_layers(router),
        has_own_fallback(out) == has_own_fallback(router),
{
    router.nest(prefix, inner)
}

/// `axum::Router::layer` with `tower_http::trace::TraceLayer::new_for_http`,
/// its span maker and its response hook set to the given levels: every
/// route, and the fallback, is wrapped in one more trace layer and answers
/// as before.
#[verifier::external_body]
fn traced(router: axum::Router, span: Level, response: Level) -> (out: axum::Router)
    ensures
        replies(out) == replies(router),
        trace_layers(out) == trace_layers(router).push((TraceLevels { span, response })),
        has_own_fallback(out) == has_own_fallback(router),
{
    let convert = |level: Level| match level {
        Level::Trace => tracing::Level::TRACE,
        Level::Debug => tracing::Level::DEBUG,
        Level::Info => tracing::Level::INFO,
        Level::Warn => tracing::Level::WARN,
        Level::Error => tracing::Level::ERROR,
    };
    router.layer(
        tower_http::trace::TraceLayer::new_for_http()
            .make_span_with(tower_http::trace::DefaultMakeSpan::new().level(convert(span)))
            .on_response(tower_http::trace::DefaultOnResponse::new().level(convert(response))),
    )
}

/// The whole route table of the server: the greeting at `/hello` inside
/// the group `/api` and no other route, around it one trace layer that
/// opens its spans and writes its response lines at info level, and no
/// fallback but the framework's.
pub fn assemble() -> (router: axum::Router)
    ensures
        replies(router) == server_table(),
        trace_layers(router) == seq![(TraceLevels { span: Level::Info, response: Level::Info })],
        !has_own_fallback(router),
{
    proof {
        reveal_strlit("/hello");
        reveal_strlit("/api");
        reveal_strlit("/api/hello");
    }
    let api = route_greeting(empty_router(), "/hello");
    let app = nest(empty_router(), "/api", api);
    proof {
        lemma_nested_single("/api"@, "/hello"@, greeting_route());
        assert("/api"@ + "/hello"@ == "/api/hello"@);
    }
    traced(app, Level::Info, Level::Info)
}

} // verus!
