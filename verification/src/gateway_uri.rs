//! The one gateway origin that a relay forwards to.
//!
//! A `GatewayUri` is made once, when the relay starts, and only from a URI
//! that names an authority.  Every request borrows the same value.

use crate::uri::{UriParts, UriPartsView};
use vstd::prelude::*;

verus! {

/// Why a URI cannot be a gateway origin.
#[derive(Debug, Clone, Copy, PartialEq, Eq, Structural)]
pub enum ConfigError {
    /// The URI names no authority.
    MissingAuthority,
}

/// A gateway origin: a scheme, if one was given, and an authority.
#[derive(Debug)]
pub struct GatewayUri {
    scheme: Option<String>,
    authority: String,
}

/// `GatewayUri` with each text as a sequence of characters.
pub struct GatewayUriView {
    pub scheme: Option<Seq<char>>,
    pub authority: Seq<char>,
}

impl GatewayUriView {
    /// The authority is present, which is to say that it is not empty.
    pub open spec fn wf(self) -> bool {
        self.authority.len() > 0
    }

    /// The origin as a URI: its scheme and its authority, and no path.
    pub open spec fn uri(self) -> UriPartsView {
        UriPartsView { scheme: self.scheme, authority: Some(self.authority), path_and_query: None }
    }
}

/// What validation makes of a URI: the origin that it names, or the reason
/// why it names none.  A URI names an origin when it has an authority, and
/// an empty authority is none.
pub open spec fn validated(uri: UriPartsView) -> Result<GatewayUriView, ConfigError> {
    match uri.authority {
        Some(authority) if authority.len() > 0 => Ok(
            GatewayUriView { scheme: uri.scheme, authority },
        ),
        _ => Err(ConfigError::MissingAuthority),
    }
}

impl View for GatewayUri {
    type V = GatewayUriView;

    closed spec fn view(&self) -> GatewayUriView {
        GatewayUriView { scheme: self.scheme.deep_view(), authority: self.authority@ }
    }
}

impl GatewayUri {
    #[verifier::type_invariant]
    spec fn inv(self) -> bool {
        self.authority@.len() > 0
    }

    /// Validates a URI as the gateway origin.  This is the only way to make
    /// a `GatewayUri`.
    pub fn new(uri: UriParts) -> (res: Result<GatewayUri, ConfigError>)
        ensures
            match res {
                Ok(origin) => validated(uri@) == Ok::<GatewayUriView, ConfigError>(origin@),
                Err(e) => validated(uri@) == Err::<GatewayUriView, ConfigError>(e),
            },
    {
        let UriParts { scheme, authority, path_and_query: _ } = uri;
        match authority {
            Some(authority) => {
                if authority.as_str().is_empty() {
                    Err(ConfigError::MissingAuthority)
                } else {
                    Ok(GatewayUri { scheme, authority })
                }
            },
            None => Err(ConfigError::MissingAuthority),
        }
    }

    /// The scheme, if the origin was given with one.
    pub fn scheme_str(&self) -> (scheme: Option<&str>)
        ensures
            scheme.deep_view() == self@.scheme,
    {
        match &self.scheme {
            Some(scheme) => Some(scheme.as_str()),
            None => None,
        }
    }

    /// The authority, which is never empty.
    pub fn authority(&self) -> (authority: &str)
        ensures
            authority@ == self@.authority,
            self@.wf(),
    {
        proof {
            use_type_invariant(self);
        }
        self.authority.as_str()
    }

    /// The origin as a URI: its scheme and its authority, and no path.
    pub fn to_uri(&self) -> (uri: UriParts)
        ensures
            uri@ == self@.uri(),
            self@.wf(),
    {
        proof {
            use_type_invariant(self);
        }
        UriParts {
            scheme: self.scheme.clone(),
            authority: Some(self.authority.clone()),
            path_and_query: None,
        }
    }
}

/// Validation yields one origin for one URI: two handles made from the same
/// URI are equal, and so may stand for one another wherever an origin is
/// read.
pub proof fn lemma_validation_is_deterministic(
    uri: UriPartsView,
    first: GatewayUriView,
    second: GatewayUriView,
)
    requires
        validated(uri) == Ok::<GatewayUriView, ConfigError>(first),
        validated(uri) == Ok::<GatewayUriView, ConfigError>(second),
    ensures
        first == second,
        first.wf(),
{
}

/// Validating the URI of an origin gives that origin back.
pub proof fn lemma_validation_is_idempotent(origin: GatewayUriView)
    requires
        origin.wf(),
    ensures
        validated(origin.uri()) == Ok::<GatewayUriView, ConfigError>(origin),
{
}

/// A URI without an authority is no gateway origin, whatever else it holds.
pub proof fn lemma_authority_is_required(uri: UriPartsView)
    ensures
        uri.authority is None ==> validated(uri) == Err::<GatewayUriView, ConfigError>(
            ConfigError::MissingAuthority,
        ),
        validated(uri) is Ok <==> (uri.authority is Some && uri.authority->0.len() > 0),
{
}

} // verus!
