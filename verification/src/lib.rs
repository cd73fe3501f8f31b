//! A small web service, described so that it can be verified.
//!
//! The service answers `GET /` with a fixed HTML page. It comes in two
//! variants, told apart by [`Transport`]: over plain TCP the page is sent as
//! it is; behind TLS the page is larger and the route is wrapped in
//! middleware that decompresses request bodies, compresses responses and
//! adds permissive cross-origin headers.
//!
//! * [`page`] builds the text of the page.
//! * [`routes`] composes the router and states what it holds.
//! * [`startup`] decides, step by step, what the process does while it
//!   starts: which action comes next and which outcomes are fatal.
//! * [`settings`] holds the fixed values the service is started with.
//!
//! Everything that touches the network, the file system or the environment
//! is left to the program that links this library.

pub mod page;
pub mod routes;
pub mod settings;
pub mod startup;
pub mod transport;

pub use page::{handler, page, repeat_text, GREETING};
pub use routes::{app, router, CorsPolicy, Middleware};
pub use settings::{fallback_address, SocketAddress};
pub use startup::{first_action, next_action, Action, Failure, Outcome};
pub use transport::Transport;
