//! Failure taxonomy for the login subsystem.
//!
//! Every stage of the callback pipeline fails with exactly one of these
//! variants; the request boundary turns the variant into a 400 response
//! carrying its human-readable description.

use vstd::prelude::*;

verus! {

/// A recoverable failure of a single login attempt. None of these is
/// process-fatal: each one ends only the request that raised it.
#[derive(Clone, Copy, Debug, PartialEq, Eq, Structural)]
pub enum FictError {
    /// The callback request lacked the `code` or `state` query parameter,
    /// or carried no query string at all.
    MissingParameters,
    /// The callback presented a `state` this service never issued (or one
    /// already consumed): a possible cross-site request forgery.
    InvalidState,
    /// The code-for-token exchange failed: transport error, non-success
    /// status, unreadable body, or a body without an `access_token` field.
    TokenExchangeFailed,
    /// The provider's user-info lookup failed to yield an identity.
    ProviderApiError,
    /// The storage collaborator reported a connection or query failure.
    StorageError,
}

impl FictError {
    /// The description carried by the 400 response for this failure.
    pub open spec fn description_spec(self) -> Seq<char> {
        match self {
            FictError::MissingParameters => "Callback request missing required query parameters"@,
            FictError::InvalidState => "Unfamiliar state encountered. Danger: this could be an XSS attack!"@,
            FictError::TokenExchangeFailed => "Unable to exchange the authorization code for an access token"@,
            FictError::ProviderApiError => "Unable to retrieve user data from the provider"@,
            FictError::StorageError => "Storage failure"@,
        }
    }

    /// Human-readable cause, sent to the client with the failing response.
    pub fn description(&self) -> (r: String)
        ensures
            r@ == self.description_spec(),
    {
        match self {
            FictError::MissingParameters => String::from_str(
                "Callback request missing required query parameters",
            ),
            FictError::InvalidState => String::from_str(
                "Unfamiliar state encountered. Danger: this could be an XSS attack!",
            ),
            FictError::TokenExchangeFailed => String::from_str(
                "Unable to exchange the authorization code for an access token",
            ),
            FictError::ProviderApiError => String::from_str(
                "Unable to retrieve user data from the provider",
            ),
            FictError::StorageError => String::from_str("Storage failure"),
        }
    }
}

} // verus!
