//! The two interactive flows, each a small state machine: a builder
//! generates a CSRF-bound authorization URL, then consumes the provider's
//! callback, checking the CSRF state before anything goes on the wire.

use vstd::prelude::*;
use vstd::string::StringExecFns;
use crate::duration::Duration;
use crate::errors::{ExchangeError, ImplicitExchangeError, ValidationError};
use crate::http::{
    code_exchange_request, join_scopes, push_param, spec_code_exchange_url, spec_join_scopes,
    spec_param, views_of, HttpRequestData,
};
use crate::token::{TokenPayload, UserToken, ValidatedTokenData};

verus! {

/// Relies on `oauth2::CsrfToken::new_random`: a fresh CSRF token of sixteen
/// random bytes, base64-encoded without padding — always 22 characters.
#[verifier::external_body]
pub(crate) fn new_random_csrf() -> (r: String)
    ensures
        r@.len() == 22,
{
    oauth2::CsrfToken::new_random().secret().clone()
}

/// The provider's authorization-endpoint URL: the flow's response type, the
/// client id, the CSRF state, the redirect URL, the space-joined scopes and
/// the re-prompt flag, each value form-encoded.
pub open spec fn spec_authorize_url(
    client_id: Seq<char>,
    redirect_url: Seq<char>,
    scopes: Seq<Seq<char>>,
    state: Seq<char>,
    force_verify: bool,
    implicit: bool,
) -> Seq<char> {
    "https://id.twitch.tv/oauth2/authorize?response_type="@ + (if implicit {
        "token"@
    } else {
        "code"@
    }) + spec_param("client_id"@, client_id) + spec_param("state"@, state) + spec_param(
        "redirect_uri"@,
        redirect_url,
    ) + spec_param("scope"@, spec_join_scopes(scopes)) + "&force_verify="@ + (if force_verify {
        "true"@
    } else {
        "false"@
    })
}

/// Whether a returned state matches the stored CSRF secret byte for byte.
/// With no stored secret nothing can match.
pub open spec fn csrf_state_ok(csrf: Option<String>, state: Seq<char>) -> bool {
    csrf matches Some(c) && c@ == state
}

/// The exact returned CSRF value passes the check.
pub proof fn lemma_csrf_round_trip(csrf: String, state: Seq<char>)
    requires
        csrf@ == state,
    ensures
        csrf_state_ok(Some(csrf), state),
{
}

/// A missing secret, or any difference from it, fails the check.
pub proof fn lemma_csrf_mismatch(csrf: Option<String>, state: Seq<char>)
    ensures
        csrf is None ==> !csrf_state_ok(csrf, state),
        csrf matches Some(c) ==> c@ != state ==> !csrf_state_ok(csrf, state),
{
}

/// Build the authorization URL for either flow.
fn build_authorize_url(
    client_id: &String,
    redirect_url: &String,
    scopes: &Vec<String>,
    state: &String,
    force_verify: bool,
    implicit: bool,
) -> (r: String)
    ensures
        r@ == spec_authorize_url(
            client_id@,
            redirect_url@,
            views_of(scopes@),
            state@,
            force_verify,
            implicit,
        ),
{
    let mut url = String::from_str("https://id.twitch.tv/oauth2/authorize?response_type=");
    url.append(if implicit { "token" } else { "code" });
    push_param(&mut url, "client_id", client_id.as_str());
    push_param(&mut url, "state", state.as_str());
    push_param(&mut url, "redirect_uri", redirect_url.as_str());
    let joined = join_scopes(scopes);
    push_param(&mut url, "scope", joined.as_str());
    url.append("&force_verify=");
    url.append(if force_verify { "true" } else { "false" });
    proof {
        assert(url@ =~= spec_authorize_url(
            client_id@,
            redirect_url@,
            views_of(scopes@),
            state@,
            force_verify,
            implicit,
        ));
    }
    url
}

/// Builder for the authorization-code flow: one interactive authorization
/// attempt, consumed by the exchange that completes it.
#[derive(Clone, Debug)]
pub struct UserTokenBuilder {
    /// The scopes to request.
    pub scopes: Vec<String>,
    /// The CSRF secret of the last generated URL, if one was generated.
    pub csrf: Option<String>,
    /// Force the provider to re-prompt for login.
    pub force_verify: bool,
    /// Echoed in URL generation and in the exchange request.
    pub redirect_url: String,
    /// The requesting application's id.
    pub client_id: String,
    /// The client secret that authenticates the exchange.
    pub client_secret: String,
}

impl UserTokenBuilder {
    /// A fresh builder: no scopes, no CSRF state yet, no forced re-prompt.
    pub fn new(client_id: String, client_secret: String, redirect_url: String) -> (r:
        UserTokenBuilder)
        ensures
            r == (UserTokenBuilder {
                scopes: r.scopes,
                csrf: None,
                force_verify: false,
                redirect_url,
                client_id,
                client_secret,
            }),
            r.scopes@.len() == 0,
    {
        UserTokenBuilder {
            scopes: Vec::new(),
            csrf: None,
            force_verify: false,
            redirect_url,
            client_id,
            client_secret,
        }
    }

    /// Replace the requested scopes.
    pub fn set_scopes(self, scopes: Vec<String>) -> (r: UserTokenBuilder)
        ensures
            r == (UserTokenBuilder { scopes, ..self }),
    {
        UserTokenBuilder { scopes, ..self }
    }

    /// Request one more scope.
    pub fn add_scope(&mut self, scope: String)
        ensures
            final(self).scopes@ == old(self).scopes@.push(scope),
            *final(self) == (UserTokenBuilder { scopes: final(self).scopes, ..*old(self) }),
    {
        self.scopes.push(scope);
    }

    /// Choose whether the provider must re-prompt login.
    pub fn force_verify(self, b: bool) -> (r: UserTokenBuilder)
        ensures
            r == (UserTokenBuilder { force_verify: b, ..self }),
    {
        UserTokenBuilder { force_verify: b, ..self }
    }

    /// Generate the authorization URL and a fresh CSRF token, storing the
    /// token for the later exchange. Generating again overwrites it, so an
    /// earlier URL can no longer be exchanged.
    pub fn generate_url(&mut self) -> (r: (String, String))
        ensures
            final(self).csrf matches Some(c) && c@ == r.1@,
            r.1@.len() == 22,
            r.0@ == spec_authorize_url(
                old(self).client_id@,
                old(self).redirect_url@,
                views_of(old(self).scopes@),
                r.1@,
                old(self).force_verify,
                false,
            ),
            *final(self) == (UserTokenBuilder { csrf: final(self).csrf, ..*old(self) }),
    {
        let csrf = new_random_csrf();
        let url = build_authorize_url(
            &self.client_id,
            &self.redirect_url,
            &self.scopes,
            &csrf,
            self.force_verify,
            false,
        );
        self.csrf = Some(csrf.clone());
        (url, csrf)
    }

    /// Store a CSRF secret by hand, in place of `generate_url`'s.
    pub fn set_csrf(&mut self, csrf: String)
        ensures
            *final(self) == (UserTokenBuilder { csrf: Some(csrf), ..*old(self) }),
    {
        self.csrf = Some(csrf);
    }

    /// The exchange's first step: compare the returned state byte for byte
    /// against the stored CSRF secret, and only on a match frame the
    /// grant-exchange request. Any mismatch, or a missing prior
    /// `generate_url`, fails before anything could go on the wire.
    pub fn exchange_request(&self, state: &str, code: &str) -> (r: Result<
        HttpRequestData,
        ExchangeError,
    >)
        ensures
            !csrf_state_ok(self.csrf, state@) ==> (r matches Err(e) && e
                == ExchangeError::StateMismatch),
            csrf_state_ok(self.csrf, state@) ==> (r matches Ok(req) && req.method@ == "POST"@
                && req.url@ == spec_code_exchange_url(
                self.client_id@,
                self.client_secret@,
                code@,
                self.redirect_url@,
            ) && req.headers@.len() == 0 && req.body@.len() == 0),
    {
        match &self.csrf {
            Some(c) => {
                let state_owned = state.to_owned();
                if !c.eq(&state_owned) {
                    return Err(ExchangeError::StateMismatch);
                }
            },
            None => {
                return Err(ExchangeError::StateMismatch);
            },
        }
        Ok(
            code_exchange_request(
                self.client_id.as_str(),
                self.client_secret.as_str(),
                code,
                self.redirect_url.as_str(),
            ),
        )
    }

    /// The exchange's last step: consume the builder and assemble the token
    /// from the grant payload and the validation report, the client secret
    /// moving into the token for future refresh use.
    pub fn complete_exchange(self, payload: TokenPayload, validated: ValidatedTokenData) -> (r:
        Result<UserToken, ExchangeError>)
        requires
            payload.wf(),
            validated.wf(),
        ensures
            self.csrf is None ==> (r matches Err(e) && e == ExchangeError::StateMismatch),
            self.csrf is Some ==> validated.login is None ==> (r matches Err(e) && e
                == ExchangeError::Validation(ValidationError::NoLogin)),
            self.csrf is Some ==> validated.login is Some ==> validated.user_id is None ==> (
            r matches Err(e) && e == ExchangeError::Validation(ValidationError::NoUserId)),
            self.csrf is Some ==> (validated.login matches Some(login)
                ==> validated.user_id matches Some(user_id) ==> (r matches Ok(t) && t.wf()
                && t.access_token == payload.access_token && t.refresh_token
                == payload.refresh_token && t.client_secret == Some(self.client_secret)
                && t.client_id == validated.client_id && t.login == login && t.user_id == user_id
                && t.never_expiring == validated.expires_in.spec_is_zero() && (
            validated.expires_in.spec_is_zero() ==> t.expires_in == Duration::spec_max()) && (
            !validated.expires_in.spec_is_zero() ==> t.expires_in == validated.expires_in) && (
            match validated.scopes {
                Some(s) => t.scopes == s,
                None => t.scopes@.len() == 0,
            }))),
    {
        if self.csrf.is_none() {
            return Err(ExchangeError::StateMismatch);
        }
        match UserToken::from_existing(
            payload.access_token,
            payload.refresh_token,
            Some(self.client_secret),
            validated,
        ) {
            Ok(t) => Ok(t),
            Err(e) => Err(ExchangeError::Validation(e)),
        }
    }
}

impl UserToken {
    /// Create a builder for the authorization-code flow.
    pub fn builder(client_id: String, client_secret: String, redirect_url: String) -> (r:
        UserTokenBuilder)
        ensures
            r == (UserTokenBuilder {
                scopes: r.scopes,
                csrf: None,
                force_verify: false,
                redirect_url,
                client_id,
                client_secret,
            }),
            r.scopes@.len() == 0,
    {
        UserTokenBuilder::new(client_id, client_secret, redirect_url)
    }
}

/// Whether an optional returned string is the same text as an optional held
/// one.
pub open spec fn opt_str_echoed(held: Option<String>, returned: Option<&str>) -> bool {
    match returned {
        Some(s) => held matches Some(h) && h@ == s@,
        None => held is None,
    }
}

/// Builder for the implicit flow, which returns the token directly in the
/// redirect and carries no client secret, so the token it produces cannot be
/// refreshed.
#[derive(Clone, Debug)]
pub struct ImplicitUserTokenBuilder {
    /// The scopes to request.
    pub scopes: Vec<String>,
    /// The CSRF secret of the last generated URL, if one was generated.
    pub csrf: Option<String>,
    /// Force the provider to re-prompt for login.
    pub force_verify: bool,
    /// Where the provider sends the user back.
    pub redirect_url: String,
    /// The requesting application's id.
    pub client_id: String,
}

impl ImplicitUserTokenBuilder {
    /// A fresh builder: no scopes, no CSRF state yet, no forced re-prompt.
    pub fn new(client_id: String, redirect_url: String) -> (r: ImplicitUserTokenBuilder)
        ensures
            r == (ImplicitUserTokenBuilder {
                scopes: r.scopes,
                csrf: None,
                force_verify: false,
                redirect_url,
                client_id,
            }),
            r.scopes@.len() == 0,
    {
        ImplicitUserTokenBuilder {
            scopes: Vec::new(),
            csrf: None,
            force_verify: false,
            redirect_url,
            client_id,
        }
    }

    /// Replace the requested scopes.
    pub fn set_scopes(self, scopes: Vec<String>) -> (r: ImplicitUserTokenBuilder)
        ensures
            r == (ImplicitUserTokenBuilder { scopes, ..self }),
    {
        ImplicitUserTokenBuilder { scopes, ..self }
    }

    /// Request one more scope.
    pub fn add_scope(&mut self, scope: String)
        ensures
            final(self).scopes@ == old(self).scopes@.push(scope),
            *final(self) == (ImplicitUserTokenBuilder { scopes: final(self).scopes, ..*old(self) }),
    {
        self.scopes.push(scope);
    }

    /// Choose whether the provider must re-prompt login.
    pub fn force_verify(self, b: bool) -> (r: ImplicitUserTokenBuilder)
        ensures
            r == (ImplicitUserTokenBuilder { force_verify: b, ..self }),
    {
        ImplicitUserTokenBuilder { force_verify: b, ..self }
    }

    /// Generate the authorization URL, marked for the implicit flow, and a
    /// fresh CSRF token, storing the token for the later exchange.
    pub fn generate_url(&mut self) -> (r: (String, String))
        ensures
            final(self).csrf matches Some(c) && c@ == r.1@,
            r.1@.len() == 22,
            r.0@ == spec_authorize_url(
                old(self).client_id@,
                old(self).redirect_url@,
                views_of(old(self).scopes@),
                r.1@,
                old(self).force_verify,
                true,
            ),
            *final(self) == (ImplicitUserTokenBuilder { csrf: final(self).csrf, ..*old(self) }),
    {
        let csrf = new_random_csrf();
        let url = build_authorize_url(
            &self.client_id,
            &self.redirect_url,
            &self.scopes,
            &csrf,
            self.force_verify,
            true,
        );
        self.csrf = Some(csrf.clone());
        (url, csrf)
    }

    /// Triage the provider's callback: check the CSRF state (a missing state
    /// counts as empty), then accept exactly a token with no error fields,
    /// handing back the access token for validation. Any error field is
    /// passed along; a callback with neither token nor error is malformed.
    pub fn exchange_callback(
        &self,
        state: Option<&str>,
        access_token: Option<&str>,
        error: Option<&str>,
        error_description: Option<&str>,
    ) -> (r: Result<String, ImplicitExchangeError>)
        ensures
            !csrf_state_ok(
                self.csrf,
                match state {
                    Some(s) => s@,
                    None => Seq::empty(),
                },
            ) ==> (r matches Err(e) && e == ImplicitExchangeError::StateMismatch),
            csrf_state_ok(
                self.csrf,
                match state {
                    Some(s) => s@,
                    None => Seq::empty(),
                },
            ) ==> {
                &&& access_token matches Some(at) ==> error is None ==> error_description is None
                    ==> (r matches Ok(s) && s@ == at@)
                &&& access_token is None && error is None && error_description is None ==> (
                r matches Err(e) && e == ImplicitExchangeError::MalformedCallback)
                &&& error is Some || error_description is Some ==> (r matches Err(e)
                    && e matches ImplicitExchangeError::ProviderError { error: eo, description: d }
                    && opt_str_echoed(eo, error) && opt_str_echoed(d, error_description))
            },
    {
        match &self.csrf {
            Some(c) => {
                let state_owned = match state {
                    Some(s) => s.to_owned(),
                    None => String::new(),
                };
                if !c.eq(&state_owned) {
                    return Err(ImplicitExchangeError::StateMismatch);
                }
            },
            None => {
                return Err(ImplicitExchangeError::StateMismatch);
            },
        }
        if error.is_none() && error_description.is_none() {
            match access_token {
                Some(at) => Ok(at.to_owned()),
                None => Err(ImplicitExchangeError::MalformedCallback),
            }
        } else {
            let error = match error {
                Some(e) => Some(e.to_owned()),
                None => None,
            };
            let description = match error_description {
                Some(d) => Some(d.to_owned()),
                None => None,
            };
            Err(ImplicitExchangeError::ProviderError { error, description })
        }
    }

    /// The exchange's last step: consume the builder and assemble the token
    /// from the validation report. The implicit flow carries no client secret
    /// and no refresh token, so the token cannot be refreshed.
    pub fn complete_exchange(self, access_token: String, validated: ValidatedTokenData) -> (r:
        Result<UserToken, ImplicitExchangeError>)
        requires
            validated.wf(),
        ensures
            self.csrf is None ==> (r matches Err(e) && e == ImplicitExchangeError::StateMismatch),
            self.csrf is Some ==> validated.login is None ==> (r matches Err(e) && e
                == ImplicitExchangeError::Validation(ValidationError::NoLogin)),
            self.csrf is Some ==> validated.login is Some ==> validated.user_id is None ==> (
            r matches Err(e) && e == ImplicitExchangeError::Validation(ValidationError::NoUserId)),
            self.csrf is Some ==> (validated.login matches Some(login)
                ==> validated.user_id matches Some(user_id) ==> (r matches Ok(t) && t.wf()
                && t.access_token == access_token && t.refresh_token is None && t.client_secret
                    is None && t.client_id == validated.client_id && t.login == login && t.user_id
                == user_id && t.never_expiring == validated.expires_in.spec_is_zero() && (
            validated.expires_in.spec_is_zero() ==> t.expires_in == Duration::spec_max()) && (
            !validated.expires_in.spec_is_zero() ==> t.expires_in == validated.expires_in) && (
            match validated.scopes {
                Some(s) => t.scopes == s,
                None => t.scopes@.len() == 0,
            }))),
    {
        if self.csrf.is_none() {
            return Err(ImplicitExchangeError::StateMismatch);
        }
        match UserToken::from_existing(access_token, None, None, validated) {
            Ok(t) => Ok(t),
            Err(e) => Err(ImplicitExchangeError::Validation(e)),
        }
    }
}

} // verus!
