//! The two variants of the service.

use vstd::prelude::*;

verus! {

/// How the service talks to its clients.
#[derive(Clone, Copy, PartialEq, Eq, Structural, Debug)]
pub enum Transport {
    /// Plain TCP: one bare route, no middleware.
    Plain,
    /// TLS: certificates are loaded first and the route is wrapped in the
    /// compressing, decompressing and cross-origin middleware.
    Tls,
}

} // verus!
