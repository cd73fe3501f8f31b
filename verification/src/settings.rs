//! The fixed values the service is started with.

use vstd::prelude::*;

verus! {

/// An IPv4 address and a port.
#[derive(Clone, Copy, PartialEq, Eq, Debug)]
pub struct SocketAddress {
    /// The four octets of the address, most significant first.
    pub octets: (u8, u8, u8, u8),
    /// The TCP port.
    pub port: u16,
}

/// The slot in which a supervisor hands over a listening socket.
pub const INHERITED_SLOT: usize = 0;

/// The port that is bound when no socket was handed over.
pub const FALLBACK_PORT: u16 = 3000;

/// The file, below the project root, that holds the PEM certificate chain.
pub const CERTIFICATE_FILE: &'static str = "cert.pem";

/// The file, below the project root, that holds the PEM private key.
pub const PRIVATE_KEY_FILE: &'static str = "key.pem";

/// The log filter that applies when the environment names none: the
/// service itself at `info`, the HTTP layers at `debug`.
pub const DEFAULT_LOG_FILTER: &'static str = "stratus=info,tower_http=debug,axum=debug";

/// The address that is bound when no socket was handed over: the loopback
/// interface, port [`FALLBACK_PORT`].
pub open spec fn fallback_address_spec() -> SocketAddress {
    SocketAddress { octets: (127u8, 0u8, 0u8, 1u8), port: FALLBACK_PORT }
}

/// The address that is bound when no socket was handed over.
#[verifier::when_used_as_spec(fallback_address_spec)]
pub fn fallback_address() -> (address: SocketAddress)
    ensures
        address == fallback_address_spec(),
{
    SocketAddress { octets: (127, 0, 0, 1), port: FALLBACK_PORT }
}

} // verus!
