//! The token entity: lifetime tracking against the instant the entity was
//! constructed, assembly from a validation response, and the refresh
//! protocol's decisions.

use vstd::prelude::*;
use crate::duration::{remaining_from, Duration};
use crate::errors::{ErrorPayload, ProviderFailure, RefreshError, ValidationError};
use crate::http::{refresh_exchange_request, HttpRequestData};

verus! {

#[verifier::external_type_specification]
#[verifier::external_body]
pub struct ExInstant(std::time::Instant);

/// Relies on `std::time::Instant` being `Copy`: its `clone` hands back the
/// instant itself.
pub assume_specification[ <std::time::Instant as Clone>::clone ](i: &std::time::Instant) -> (r:
    std::time::Instant)
    ensures
        r == *i,
;

/// Relies on `std::time::Instant::now`: captures the current monotonic
/// instant. Nothing can be promised of a clock reading.
#[verifier::external_body]
pub(crate) fn instant_now() -> (r: std::time::Instant) {
    std::time::Instant::now()
}

/// Relies on `std::time::Instant::elapsed`: the monotonic time since `i` was
/// captured. Whatever the clock says, the sub-second part of a
/// `std::time::Duration` is below one second.
#[verifier::external_body]
pub(crate) fn elapsed_since(i: &std::time::Instant) -> (r: Duration)
    ensures
        r.wf(),
{
    let d = i.elapsed();
    Duration { secs: d.as_secs(), nanos: d.subsec_nanos() }
}

/// The kind of bearer token a flow produced.
#[derive(Clone, Copy, Debug, PartialEq, Eq, Structural)]
pub enum BearerTokenType {
    /// A token bound to an authenticated user.
    UserToken,
    /// An app token from the client-credentials flow, bound to no user.
    AppAccessToken,
}

/// What a successful grant exchange hands back: the new token material.
#[derive(Clone, Debug, PartialEq, Eq)]
pub struct TokenPayload {
    /// The new access token.
    pub access_token: String,
    /// A new refresh token, or nothing, in which case the old one is spent.
    pub refresh_token: Option<String>,
    /// How long the token is valid, from now.
    pub expires_in: Duration,
}

impl TokenPayload {
    pub open spec fn wf(self) -> bool {
        self.expires_in.wf()
    }
}

/// What the validation endpoint reports about an access token.
#[derive(Clone, Debug, PartialEq, Eq)]
pub struct ValidatedTokenData {
    /// The client id the token was issued to.
    pub client_id: String,
    /// The login name of the authenticated user, if any.
    pub login: Option<String>,
    /// The id of the authenticated user, if any.
    pub user_id: Option<String>,
    /// The granted scopes, if the server reported them.
    pub scopes: Option<Vec<String>>,
    /// The remaining validity the server reported.
    pub expires_in: Duration,
}

impl ValidatedTokenData {
    pub open spec fn wf(self) -> bool {
        self.expires_in.wf()
    }
}

/// An OAuth2 user token: the credential itself, the identity it belongs to,
/// and what is needed to track and extend its life.
#[derive(Clone, Debug)]
pub struct UserToken {
    /// The access token used to authenticate requests.
    pub access_token: String,
    /// The client id the token was issued to; fixed at creation.
    pub client_id: String,
    /// The client secret, when the producing flow had one; required to
    /// refresh.
    pub client_secret: Option<String>,
    /// Login name of the user this token belongs to.
    pub login: String,
    /// Id of the user this token belongs to.
    pub user_id: String,
    /// The refresh token used to extend this token's life, if one is held.
    pub refresh_token: Option<String>,
    /// Validity as of the moment the entity was constructed.
    pub expires_in: Duration,
    /// When this entity was constructed — not when the server issued the
    /// token; rehydrating a stored token resets this reference point.
    pub struct_created: std::time::Instant,
    /// The granted scopes, in order.
    pub scopes: Vec<String>,
    /// The issuing server reported no expiry at all.
    pub never_expiring: bool,
}

impl UserToken {
    /// Well-formed: the stored validity is a valid duration.
    pub open spec fn wf(self) -> bool {
        self.expires_in.wf()
    }

    /// Assemble a token without consulting the validation endpoint. With no
    /// `expires_in` the token is taken to never expire.
    pub fn from_existing_unchecked(
        access_token: String,
        refresh_token: Option<String>,
        client_id: String,
        client_secret: Option<String>,
        login: String,
        user_id: String,
        scopes: Option<Vec<String>>,
        expires_in: Option<Duration>,
    ) -> (r: UserToken)
        requires
            expires_in matches Some(d) ==> d.wf(),
        ensures
            r.wf(),
            r.access_token == access_token,
            r.refresh_token == refresh_token,
            r.client_id == client_id,
            r.client_secret == client_secret,
            r.login == login,
            r.user_id == user_id,
            r.never_expiring == (expires_in is None),
            expires_in matches Some(d) ==> r.expires_in == d,
            expires_in is None ==> r.expires_in == Duration::spec_max(),
            (match scopes {
                Some(s) => r.scopes == s,
                None => r.scopes@.len() == 0,
            }),
    {
        let never_expiring = expires_in.is_none();
        let expires_in = match expires_in {
            Some(d) => d,
            None => Duration::max_duration(),
        };
        let scopes = match scopes {
            Some(s) => s,
            None => Vec::new(),
        };
        UserToken {
            access_token,
            client_id,
            client_secret,
            login,
            user_id,
            refresh_token,
            expires_in,
            struct_created: instant_now(),
            scopes,
            never_expiring,
        }
    }

    /// Assemble a token from what the validation endpoint reported. A report
    /// of exactly zero remaining validity means the token never expires: an
    /// actually expired token would have been rejected outright.
    pub fn from_existing(
        access_token: String,
        refresh_token: Option<String>,
        client_secret: Option<String>,
        validated: ValidatedTokenData,
    ) -> (r: Result<UserToken, ValidationError>)
        requires
            validated.wf(),
        ensures
            validated.login is None ==> (r matches Err(e) && e == ValidationError::NoLogin),
            validated.login is Some && validated.user_id is None ==> (r matches Err(e) && e
                == ValidationError::NoUserId),
            validated.login matches Some(login) ==> validated.user_id matches Some(user_id) ==> (
            r matches Ok(t) && t.wf() && t.access_token == access_token && t.refresh_token
                == refresh_token && t.client_secret == client_secret && t.client_id
                == validated.client_id && t.login == login && t.user_id == user_id
                && t.never_expiring == validated.expires_in.spec_is_zero() && (
            validated.expires_in.spec_is_zero() ==> t.expires_in == Duration::spec_max()) && (
            !validated.expires_in.spec_is_zero() ==> t.expires_in == validated.expires_in) && (
            match validated.scopes {
                Some(s) => t.scopes == s,
                None => t.scopes@.len() == 0,
            })),
    {
        let login = match validated.login {
            Some(l) => l,
            None => {
                return Err(ValidationError::NoLogin);
            },
        };
        let user_id = match validated.user_id {
            Some(u) => u,
            None => {
                return Err(ValidationError::NoUserId);
            },
        };
        let expires_in = if validated.expires_in.is_zero() {
            None
        } else {
            Some(validated.expires_in)
        };
        Ok(
            Self::from_existing_unchecked(
                access_token,
                refresh_token,
                validated.client_id,
                client_secret,
                login,
                user_id,
                validated.scopes,
                expires_in,
            ),
        )
    }

    /// True only for tokens assembled with no expiry; never assumed.
    pub fn never_expires(&self) -> (r: bool)
        ensures
            r == self.never_expiring,
    {
        self.never_expiring
    }

    /// Attach or replace the client secret, enabling a later refresh.
    pub fn set_secret(&mut self, secret: Option<String>)
        ensures
            *final(self) == (UserToken { client_secret: secret, ..*old(self) }),
    {
        self.client_secret = secret;
    }

    pub fn token_type() -> (r: BearerTokenType)
        ensures
            r == BearerTokenType::UserToken,
    {
        BearerTokenType::UserToken
    }

    pub fn client_id(&self) -> (r: &String)
        ensures
            r == self.client_id,
    {
        &self.client_id
    }

    pub fn token(&self) -> (r: &String)
        ensures
            r == self.access_token,
    {
        &self.access_token
    }

    pub fn login(&self) -> (r: &String)
        ensures
            r == self.login,
    {
        &self.login
    }

    pub fn user_id(&self) -> (r: &String)
        ensures
            r == self.user_id,
    {
        &self.user_id
    }

    pub fn scopes(&self) -> (r: &Vec<String>)
        ensures
            r == self.scopes,
    {
        &self.scopes
    }

    /// How long the token is still valid: the maximum duration for a
    /// never-expiring token, otherwise what is left of `expires_in` since the
    /// entity was constructed, clamped to zero. Never panics.
    pub fn remaining_lifetime(&self) -> (r: Duration)
        requires
            self.wf(),
        ensures
            r.wf(),
            self.never_expiring ==> r == Duration::spec_max(),
            !self.never_expiring ==> r.total_nanos() <= self.expires_in.total_nanos(),
    {
        if !self.never_expiring {
            let elapsed = elapsed_since(&self.struct_created);
            remaining_from(self.expires_in, elapsed)
        } else {
            Duration::max_duration()
        }
    }

    /// Whether any lifetime remains at all. The result depends on the clock
    /// for most tokens; a never-expiring token is always usable, and one
    /// whose stored validity is exactly zero never is.
    pub fn is_usable(&self) -> (r: bool)
        requires
            self.wf(),
        ensures
            self.never_expiring ==> r,
            !self.never_expiring && self.expires_in.spec_is_zero() ==> !r,
    {
        let remaining = self.remaining_lifetime();
        !remaining.is_zero()
    }

    /// The refresh protocol's first step: either the request to send, or the
    /// failure that forbids any network call. The refresh token is required
    /// first, then the client secret.
    pub fn refresh_request(&self) -> (r: Result<HttpRequestData, RefreshError>)
        ensures
            self.refresh_token is None ==> (r matches Err(e) && e == RefreshError::NoRefreshToken),
            self.refresh_token is Some && self.client_secret is None ==> (r matches Err(e) && e
                == RefreshError::NoClientSecret),
            self.refresh_token matches Some(rt) ==> self.client_secret matches Some(cs) ==> (
            r matches Ok(req) && req.method@ == "POST"@ && req.url@ == crate::http::spec_refresh_url(
                self.client_id@,
                cs@,
                rt@,
            ) && req.headers@.len() == 0 && req.body@.len() == 0),
    {
        let refresh_token = match &self.refresh_token {
            Some(rt) => rt,
            None => {
                return Err(RefreshError::NoRefreshToken);
            },
        };
        let client_secret = match &self.client_secret {
            Some(cs) => cs,
            None => {
                return Err(RefreshError::NoClientSecret);
            },
        };
        Ok(
            refresh_exchange_request(
                self.client_id.as_str(),
                client_secret.as_str(),
                refresh_token.as_str(),
            ),
        )
    }

    /// The refresh protocol's last step, on success: replace the token
    /// material atomically and reset the creation instant. A payload without
    /// a refresh token drops the old one — such a token cannot be refreshed
    /// again.
    pub fn apply_refresh(&mut self, payload: TokenPayload)
        requires
            payload.wf(),
        ensures
            final(self).wf(),
            final(self).access_token == payload.access_token,
            final(self).expires_in == payload.expires_in,
            final(self).refresh_token == payload.refresh_token,
            final(self).client_id == old(self).client_id,
            final(self).client_secret == old(self).client_secret,
            final(self).login == old(self).login,
            final(self).user_id == old(self).user_id,
            final(self).scopes == old(self).scopes,
            final(self).never_expiring == old(self).never_expiring,
    {
        self.access_token = payload.access_token;
        self.expires_in = payload.expires_in;
        self.refresh_token = payload.refresh_token;
        self.struct_created = instant_now();
    }
}

/// Decide the outcome of a grant-exchange response: a success status must
/// carry a token payload; a non-success status surfaces its structured error
/// body when one parsed, and otherwise only its status code, with the message
/// redacted.
pub fn grant_response(
    status: u16,
    token: Option<TokenPayload>,
    error: Option<ErrorPayload>,
) -> (r: Result<TokenPayload, ProviderFailure>)
    ensures
        r == (if status == 200 {
            match token {
                Some(p) => Ok::<TokenPayload, ProviderFailure>(p),
                None => Err(ProviderFailure::Unrecognized(200)),
            }
        } else {
            match error {
                Some(e) => Err::<TokenPayload, ProviderFailure>(ProviderFailure::Provider(e)),
                None => Err(ProviderFailure::Unrecognized(status)),
            }
        }),
{
    if status == 200 {
        match token {
            Some(p) => Ok(p),
            None => Err(ProviderFailure::Unrecognized(200)),
        }
    } else {
        match error {
            Some(e) => Err(ProviderFailure::Provider(e)),
            None => Err(ProviderFailure::Unrecognized(status)),
        }
    }
}

/// Decide the outcome of a validation response: only a success status with a
/// parsed report stands; anything else means the provider rejected the token.
pub fn validation_outcome(status: u16, parsed: Option<ValidatedTokenData>) -> (r: Result<
    ValidatedTokenData,
    ValidationError,
>)
    ensures
        r == (if status == 200 {
            match parsed {
                Some(v) => Ok::<ValidatedTokenData, ValidationError>(v),
                None => Err(ValidationError::NotAuthorized),
            }
        } else {
            Err(ValidationError::NotAuthorized)
        }),
{
    if status == 200 {
        match parsed {
            Some(v) => Ok(v),
            None => Err(ValidationError::NotAuthorized),
        }
    } else {
        Err(ValidationError::NotAuthorized)
    }
}

} // verus!
