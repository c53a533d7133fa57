//! Verified core of an Oblivious HTTP relay.
//!
//! The relay accepts encapsulated requests, strips every header a client
//! sent, and forwards the opaque payload to one gateway origin.  This crate
//! holds the decisions of that pipeline, each with a contract that Verus
//! proves; sockets, tasks and the HTTP client live with the caller.
//!
//! A caller validates the gateway origin once with
//! [`GatewayUri::new`], hands each request to [`serve_ohttp_relay`], does
//! what the returned [`Step`] says, and settles a forwarded request with
//! [`forward_request`].

pub mod acceptor;
pub mod addr;
pub mod error;
pub mod gateway_uri;
pub mod headers;
pub mod relay;
pub mod text;
pub mod uri;

pub use crate::acceptor::{next_connection, Accept};
pub use crate::addr::uri_to_addr;
pub use crate::error::{RelayError, Reply};
pub use crate::gateway_uri::{ConfigError, GatewayUri};
pub use crate::relay::{
    forward_request, handle_ohttp_relay, into_forward_req, rewrite_target, serve_ohttp_relay,
    InboundRequest, OutboundRequest, Step, DEFAULT_PORT, EXPECTED_MEDIA_TYPE, INVALID_TARGET,
    OHTTP_RELAY_HOST,
};
pub use crate::uri::UriParts;
