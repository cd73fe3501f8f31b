//! The router: one route, and behind TLS the middleware around it.
//!
//! The router itself is an `axum::Router`, which cannot be looked into. What
//! it holds is therefore given a name, [`route_table`], and each call that
//! builds a router says what it does to that table. [`router`] is proved,
//! from those statements, to build exactly the table of [`expected_table`].

use crate::page::{page, page_text};
use crate::transport::Transport;
use vstd::prelude::*;

verus! {

/// `axum::Router`, carried through as an opaque value.
#[verifier::external_type_specification]
#[verifier::external_body]
#[verifier::reject_recursive_types(S)]
pub struct ExRouter<S>(axum::Router<S>);

/// `tower::ServiceBuilder`, carried through as an opaque value.
#[verifier::external_type_specification]
#[verifier::external_body]
#[verifier::reject_recursive_types(L)]
pub struct ExServiceBuilder<L>(tower::ServiceBuilder<L>);

/// `tower::layer::util::Stack`, the type of two layers put together.
#[verifier::external_type_specification]
#[verifier::external_body]
#[verifier::reject_recursive_types(Inner)]
#[verifier::reject_recursive_types(Outer)]
pub struct ExStack<Inner, Outer>(tower::layer::util::Stack<Inner, Outer>);

/// `tower::layer::util::Identity`, the layer that changes nothing.
#[verifier::external_type_specification]
#[verifier::external_body]
pub struct ExIdentity(tower::layer::util::Identity);

/// `tower_http::compression::CompressionLayer`.
#[verifier::external_type_specification]
#[verifier::external_body]
#[verifier::reject_recursive_types(P)]
pub struct ExCompressionLayer<P>(tower_http::compression::CompressionLayer<P>);

/// `tower_http::compression::DefaultPredicate`, which decides whether a
/// response is worth compressing.
#[verifier::external_type_specification]
#[verifier::external_body]
pub struct ExDefaultPredicate(tower_http::compression::DefaultPredicate);

/// `tower_http::decompression::RequestDecompressionLayer`.
#[verifier::external_type_specification]
#[verifier::external_body]
pub struct ExRequestDecompressionLayer(tower_http::decompression::RequestDecompressionLayer);

/// `tower_http::cors::CorsLayer`.
#[verifier::external_type_specification]
#[verifier::external_body]
pub struct ExCorsLayer(tower_http::cors::CorsLayer);

/// The path of the only route.
pub const ROOT_PATH: &'static str = "/";

/// The status with which the route answers.
pub const STATUS_OK: u16 = 200;

/// The content type with which the route answers.
pub const CONTENT_TYPE_HTML: &'static str = "text/html; charset=utf-8";

/// What a cross-origin layer grants to every request, whatever its origin.
#[derive(Clone, Copy, PartialEq, Eq, Structural, Debug)]
pub struct CorsPolicy {
    /// Every origin is allowed.
    pub any_origin: bool,
    /// Every method is allowed.
    pub any_method: bool,
    /// Every request header is allowed.
    pub any_request_header: bool,
    /// Every response header is exposed.
    pub any_exposed_header: bool,
    /// Requests may carry credentials.
    pub credentials: bool,
}

/// A middleware that can stand around a route.
#[derive(Clone, Copy, PartialEq, Eq, Structural, Debug)]
pub enum Middleware {
    /// Decodes the body of a request that arrives compressed.
    RequestDecompression,
    /// Compresses the body of a response in an encoding the client accepts.
    Compression,
    /// Adds cross-origin headers to the response, as `policy` says.
    Cors { policy: CorsPolicy },
}

/// What a router holds for one path: how its handler answers `GET`, and
/// the middleware that the answer passes on its way out.
pub struct Endpoint {
    /// The status of the handler's answer.
    pub status: u16,
    /// The content type of the handler's answer.
    pub content_type: Seq<char>,
    /// The body of the handler's answer, before any middleware has touched
    /// it.
    pub body: Seq<char>,
    /// The middleware around the handler, the innermost first. A request
    /// passes them from the last to the first, the response from the first
    /// to the last.
    pub layers: Seq<Middleware>,
}

/// What a router holds: for each path that has a route, its endpoint.
pub type RouteTable = Map<Seq<char>, Endpoint>;

/// The route table of `router`.
pub uninterp spec fn route_table(router: axum::Router) -> RouteTable;

/// What `layer` grants.
pub uninterp spec fn cors_policy(layer: tower_http::cors::CorsLayer) -> CorsPolicy;

/// The policy that opens everything but credentials.
pub open spec fn permissive_policy() -> CorsPolicy {
    CorsPolicy {
        any_origin: true,
        any_method: true,
        any_request_header: true,
        any_exposed_header: true,
        credentials: false,
    }
}

/// The cross-origin middleware that `layer` makes.
pub open spec fn cors_middleware(layer: tower_http::cors::CorsLayer) -> Middleware {
    Middleware::Cors { policy: cors_policy(layer) }
}

/// An endpoint that answers `200 OK` with `body` as HTML and has no
/// middleware around it.
pub open spec fn html_endpoint(body: Seq<char>) -> Endpoint {
    Endpoint { status: STATUS_OK, content_type: CONTENT_TYPE_HTML@, body, layers: Seq::empty() }
}

/// `endpoint` with `middleware` put around it.
pub open spec fn wrap(endpoint: Endpoint, middleware: Middleware) -> Endpoint {
    Endpoint { layers: endpoint.layers.push(middleware), ..endpoint }
}

/// `table` with `middleware` put around every endpoint.
pub open spec fn wrapped(table: RouteTable, middleware: Middleware) -> RouteTable {
    table.map_values(|endpoint: Endpoint| wrap(endpoint, middleware))
}

/// A path without captures or wildcards: it starts with a slash and holds
/// no brace, colon or asterisk.
pub open spec fn is_static_path(path: Seq<char>) -> bool {
    &&& path.len() > 0
    &&& path[0] == '/'
    &&& forall|i: int|
        0 <= i < path.len() ==> path[i] != '{' && path[i] != '}' && path[i] != ':' && path[i]
            != '*'
}

/// The middleware around the route of `transport`, the innermost first:
/// none over plain TCP. Behind TLS the compression stands next to the
/// handler, the decompression of request bodies around it, and the
/// permissive cross-origin layer around both. An exchange therefore has its
/// request body decompressed, then its response compressed, then the
/// cross-origin headers added.
pub open spec fn layers_of(transport: Transport) -> Seq<Middleware> {
    match transport {
        Transport::Plain => Seq::empty(),
        Transport::Tls => seq![
            Middleware::Compression,
            Middleware::RequestDecompression,
            Middleware::Cors { policy: permissive_policy() },
        ],
    }
}

/// The route table of the service: the root path, answered with the page of
/// `transport` through the middleware of `transport`, and nothing else.
pub open spec fn expected_table(transport: Transport) -> RouteTable {
    RouteTable::empty().insert(
        ROOT_PATH@,
        Endpoint { layers: layers_of(transport), ..html_endpoint(page_text(transport)) },
    )
}

/// `tower::ServiceBuilder::new`: a builder that holds no layer yet. Nothing
/// is claimed of the value; its type says what it is.
pub assume_specification[ tower::ServiceBuilder::<tower::layer::util::Identity>::new ]() -> (builder:
    tower::ServiceBuilder<tower::layer::util::Identity>);

/// `tower::ServiceBuilder::layer`: the builder with `layer` added inside
/// the layers it already holds. Nothing is claimed of the value; the type
/// of the result records the layers and their order.
pub assume_specification<L, T>[ tower::ServiceBuilder::<L>::layer::<T> ](
    builder: tower::ServiceBuilder<L>,
    layer: T,
) -> (stacked: tower::ServiceBuilder<tower::layer::util::Stack<T, L>>);

/// `tower_http::decompression::RequestDecompressionLayer::new`. Nothing is
/// claimed of the value.
pub assume_specification[ tower_http::decompression::RequestDecompressionLayer::new ]() -> (layer:
    tower_http::decompression::RequestDecompressionLayer);

/// `tower_http::compression::CompressionLayer::new`. Nothing is claimed of
/// the value.
pub assume_specification[ tower_http::compression::CompressionLayer::<
    tower_http::compression::DefaultPredicate,
>::new ]() -> (layer: tower_http::compression::CompressionLayer);

/// `tower_http::cors::CorsLayer::permissive`. Claims what tower-http
/// documents of it: all origins, all methods and all request headers are
/// allowed and all headers exposed; credentials, which a new layer does not
/// allow, stay as they are.
pub assume_specification[ tower_http::cors::CorsLayer::permissive ]() -> (layer:
    tower_http::cors::CorsLayer)
    ensures
        cors_policy(layer) == permissive_policy(),
;

/// Calls `axum::Router::new`. Claims that the new router has no route:
/// axum documents that it answers every request with `404 Not Found`.
#[verifier::external_body]
fn new_router() -> (router: axum::Router)
    ensures
        route_table(router) == RouteTable::empty(),
{
    axum::Router::new()
}

/// Calls `axum::Router::route` with `axum::routing::get` around a handler
/// that answers with `body` as `axum::response::Html`. Claims that the
/// table gains `path`, answered `200 OK` with `body` as HTML and with no
/// middleware around it, and is otherwise unchanged.
///
/// `route` panics on a path it cannot parse and on a path that collides
/// with an earlier route; a static path on a router without routes is
/// neither.
#[verifier::external_body]
fn route_get_html(router: axum::Router, path: &str, body: String) -> (routed: axum::Router)
    requires
        route_table(router) == RouteTable::empty(),
        is_static_path(path@),
    ensures
        route_table(routed) == route_table(router).insert(path@, html_endpoint(body@)),
{
    router.route(path, axum::routing::get(move || std::future::ready(axum::response::Html(body))))
}

/// Calls `axum::Router::layer` with a builder that holds, by its type, a
/// request-decompression layer outside a compression layer. Claims that
/// every endpoint is wrapped in both, the compression inside: `layer`
/// applies the builder to each route, and a `Stack` applies its inner layer
/// first.
#[verifier::external_body]
fn layer_codecs(
    router: axum::Router,
    codecs: tower::ServiceBuilder<
        tower::layer::util::Stack<
            tower_http::compression::CompressionLayer,
            tower::layer::util::Stack<
                tower_http::decompression::RequestDecompressionLayer,
                tower::layer::util::Identity,
            >,
        >,
    >,
) -> (layered: axum::Router)
    ensures
        route_table(layered) == wrapped(
            wrapped(route_table(router), Middleware::Compression),
            Middleware::RequestDecompression,
        ),
{
    router.layer(codecs)
}

/// Calls `axum::Router::layer` with a cross-origin layer. Claims that every
/// endpoint is wrapped in it.
///
/// A cross-origin layer panics when it is applied if it allows credentials
/// and grants anything to everyone; a layer without credentials does not.
#[verifier::external_body]
fn layer_cors(router: axum::Router, cors: tower_http::cors::CorsLayer) -> (layered: axum::Router)
    requires
        !cors_policy(cors).credentials,
    ensures
        route_table(layered) == wrapped(route_table(router), cors_middleware(cors)),
{
    router.layer(cors)
}

/// Wrapping the only endpoint of a table wraps that endpoint and adds none.
proof fn lemma_wrapped_single(path: Seq<char>, endpoint: Endpoint, middleware: Middleware)
    ensures
        wrapped(RouteTable::empty().insert(path, endpoint), middleware)
            == RouteTable::empty().insert(path, wrap(endpoint, middleware)),
{
    assert(wrapped(RouteTable::empty().insert(path, endpoint), middleware)
        =~= RouteTable::empty().insert(path, wrap(endpoint, middleware)));
}

/// The router of `transport`: `GET /` answers with the page of `transport`.
/// Over plain TCP nothing stands around the route. Behind TLS it is wrapped
/// in the middleware that decompresses request bodies and compresses
/// responses, built with `tower::ServiceBuilder`, and then in the
/// permissive cross-origin middleware.
pub fn router(transport: Transport) -> (built: axum::Router)
    ensures
        route_table(built) == expected_table(transport),
{
    proof {
        reveal_strlit("/");
    }
    let body = page(transport);
    let routed = route_get_html(new_router(), ROOT_PATH, body);
    match transport {
        Transport::Plain => routed,
        Transport::Tls => {
            let codecs = tower::ServiceBuilder::new();
            let codecs = codecs.layer(tower_http::decompression::RequestDecompressionLayer::new());
            let codecs = codecs.layer(tower_http::compression::CompressionLayer::new());
            let compressed = layer_codecs(routed, codecs);
            let cors = tower_http::cors::CorsLayer::permissive();
            let ghost outermost = cors_middleware(cors);
            let layered = layer_cors(compressed, cors);
            proof {
                let bare = html_endpoint(page_text(transport));
                let inner = wrap(bare, Middleware::Compression);
                let middle = wrap(inner, Middleware::RequestDecompression);
                lemma_wrapped_single(ROOT_PATH@, bare, Middleware::Compression);
                lemma_wrapped_single(ROOT_PATH@, inner, Middleware::RequestDecompression);
                lemma_wrapped_single(ROOT_PATH@, middle, outermost);
                assert(wrap(middle, outermost).layers =~= layers_of(transport));
            }
            layered
        },
    }
}

/// The router of the service behind TLS.
pub fn app() -> (built: axum::Router)
    ensures
        route_table(built) == expected_table(Transport::Tls),
{
    router(Transport::Tls)
}

} // verus!
