//! Error taxonomy: every failure is a distinct, inspectable outcome; nothing
//! is retried or swallowed.

use vstd::prelude::*;

verus! {

/// The structured error body the provider returns on a failed grant exchange:
/// a provider-assigned status code and a human-readable message.
#[derive(Clone, Debug, PartialEq, Eq)]
pub struct ErrorPayload {
    pub status: u16,
    pub message: String,
}

/// How a grant-exchange response failed, before it is attributed to a
/// particular operation.
#[derive(Clone, Debug, PartialEq, Eq)]
pub enum ProviderFailure {
    /// Non-success status with a parseable structured error body.
    Provider(ErrorPayload),
    /// A status that carried no parseable structured body; the status is
    /// preserved and the message redacted.
    Unrecognized(u16),
}

/// Why assembling a token from a validation response failed.
#[derive(Clone, Debug, PartialEq, Eq)]
pub enum ValidationError {
    /// The validation endpoint rejected the token.
    NotAuthorized,
    /// Validation succeeded but reported no login name.
    NoLogin,
    /// Validation succeeded but reported no user id.
    NoUserId,
    /// The injected transport failed; the driver's message is passed through.
    TransportError(String),
}

/// Why a refresh failed.
#[derive(Clone, Debug, PartialEq, Eq)]
pub enum RefreshError {
    /// No refresh token is held, so no exchange can be attempted.
    NoRefreshToken,
    /// No client secret is held, so the client cannot authenticate.
    NoClientSecret,
    /// Non-success status with a parseable structured error body.
    ProviderError(ErrorPayload),
    /// Non-success status with no parseable body; status preserved.
    UnrecognizedProviderError(u16),
    /// The injected transport failed.
    TransportError(String),
}

/// Why an authorization-code exchange failed.
#[derive(Clone, Debug, PartialEq, Eq)]
pub enum ExchangeError {
    /// The returned state did not match the stored CSRF secret, or no URL was
    /// ever generated.
    StateMismatch,
    /// Non-success status with a parseable structured error body.
    ProviderError(ErrorPayload),
    /// Non-success status with no parseable body; status preserved.
    UnrecognizedProviderError(u16),
    /// The injected transport failed.
    TransportError(String),
    /// The exchanged token failed validation.
    Validation(ValidationError),
}

/// Why an implicit-flow exchange failed.
#[derive(Clone, Debug, PartialEq, Eq)]
pub enum ImplicitExchangeError {
    /// The returned state did not match the stored CSRF secret, or no URL was
    /// ever generated.
    StateMismatch,
    /// The callback carried an error instead of a token; whatever the
    /// provider supplied is passed along.
    ProviderError { error: Option<String>, description: Option<String> },
    /// The callback carried neither a token nor any error field.
    MalformedCallback,
    /// The returned token failed validation.
    Validation(ValidationError),
    /// The injected transport failed.
    TransportError(String),
}

impl ProviderFailure {
    /// Attribute a grant-exchange failure to a refresh attempt.
    pub fn into_refresh_error(self) -> (r: RefreshError)
        ensures
            r == (match self {
                ProviderFailure::Provider(p) => RefreshError::ProviderError(p),
                ProviderFailure::Unrecognized(s) => RefreshError::UnrecognizedProviderError(s),
            }),
    {
        match self {
            ProviderFailure::Provider(p) => RefreshError::ProviderError(p),
            ProviderFailure::Unrecognized(s) => RefreshError::UnrecognizedProviderError(s),
        }
    }

    /// Attribute a grant-exchange failure to an authorization-code exchange.
    pub fn into_exchange_error(self) -> (r: ExchangeError)
        ensures
            r == (match self {
                ProviderFailure::Provider(p) => ExchangeError::ProviderError(p),
                ProviderFailure::Unrecognized(s) => ExchangeError::UnrecognizedProviderError(s),
            }),
    {
        match self {
            ProviderFailure::Provider(p) => ExchangeError::ProviderError(p),
            ProviderFailure::Unrecognized(s) => ExchangeError::UnrecognizedProviderError(s),
        }
    }
}

} // verus!
