use twitch_oauth2::duration::{remaining_from, Duration};
use twitch_oauth2::errors::{ProviderFailure, RefreshError, ValidationError};
use twitch_oauth2::http::HttpRequestData;
use twitch_oauth2::token::{
    grant_response, validation_outcome, BearerTokenType, TokenPayload, UserToken,
    ValidatedTokenData,
};

fn user_token(refresh_token: Option<String>, client_secret: Option<String>) -> UserToken {
    UserToken::from_existing_unchecked(
        String::from("accesstoken"),
        refresh_token,
        String::from("clientid"),
        client_secret,
        String::from("login"),
        String::from("42"),
        Some(vec![String::from("chat:read")]),
        Some(Duration::from_secs(14400)),
    )
}

fn parse_token_payload(body: &[u8]) -> Option<TokenPayload> {
    let v: serde_json::Value = serde_json::from_slice(body).ok()?;
    let access_token = v.get("access_token")?.as_str()?.to_string();
    let refresh_token = v
        .get("refresh_token")
        .and_then(|x| x.as_str())
        .map(|s| s.to_string());
    let expires_in = v.get("expires_in")?.as_u64()?;
    Some(TokenPayload {
        access_token,
        refresh_token,
        expires_in: Duration::from_secs(expires_in),
    })
}

fn parse_error_payload(body: &[u8]) -> Option<twitch_oauth2::errors::ErrorPayload> {
    let v: serde_json::Value = serde_json::from_slice(body).ok()?;
    let status = v.get("status")?.as_u64()?;
    let message = v.get("message")?.as_str()?.to_string();
    Some(twitch_oauth2::errors::ErrorPayload {
        status: u16::try_from(status).ok()?,
        message,
    })
}

/// Drives the refresh protocol against a stub transport, the way an
/// application loop would.
fn drive_refresh(
    t: &mut UserToken,
    http: &mut dyn FnMut(&HttpRequestData) -> Result<(u16, Vec<u8>), String>,
) -> Result<(), RefreshError> {
    let req = t.refresh_request()?;
    let (status, body) = http(&req).map_err(RefreshError::TransportError)?;
    let token_payload = if status == 200 {
        parse_token_payload(&body)
    } else {
        None
    };
    let error_payload = parse_error_payload(&body);
    let payload = grant_response(status, token_payload, error_payload)
        .map_err(|f| f.into_refresh_error())?;
    t.apply_refresh(payload);
    Ok(())
}

#[test]
fn never_expiring_token_outlasts_everything() {
    let t = UserToken::from_existing_unchecked(
        String::from("accesstoken"),
        None,
        String::from("clientid"),
        None,
        String::from("login"),
        String::from("42"),
        None,
        None,
    );
    assert!(t.never_expires());
    let r = t.remaining_lifetime();
    assert_eq!(r.secs, u64::MAX);
    assert_eq!(r.nanos, 999_999_999);
    let again = t.remaining_lifetime();
    assert_eq!(again.secs, u64::MAX);
    assert!(t.is_usable());
}

#[test]
fn fresh_token_has_nearly_full_lifetime() {
    let t = user_token(None, None);
    let r = t.remaining_lifetime();
    assert!(r.secs == 14400 && r.nanos == 0 || r.secs == 14399);
}

#[test]
fn remaining_lifetime_clamps_to_zero() {
    let expires = Duration::from_secs(14400);
    let exact = remaining_from(expires, Duration::from_secs(14400));
    assert_eq!(exact, Duration::zero());
    let past = remaining_from(expires, Duration::from_secs(20000));
    assert_eq!(past, Duration::zero());
    let mid = remaining_from(
        expires,
        Duration {
            secs: 14399,
            nanos: 999_999_999,
        },
    );
    assert_eq!(mid.secs, 0);
    assert_eq!(mid.nanos, 1);
    let none = remaining_from(expires, Duration::zero());
    assert_eq!(none, expires);
}

#[test]
fn refresh_without_refresh_token_makes_no_call() {
    let mut calls: u32 = 0;
    // no refresh token, no secret: the missing refresh token is reported
    let mut t = user_token(None, None);
    let r = drive_refresh(&mut t, &mut |_req| {
        calls += 1;
        Ok((200, Vec::new()))
    });
    assert!(matches!(r, Err(RefreshError::NoRefreshToken)));
    assert_eq!(calls, 0);
    // a secret alone does not help
    let mut t = user_token(None, Some(String::from("secret")));
    let r = drive_refresh(&mut t, &mut |_req| {
        calls += 1;
        Ok((200, Vec::new()))
    });
    assert!(matches!(r, Err(RefreshError::NoRefreshToken)));
    assert_eq!(calls, 0);
}

#[test]
fn refresh_without_client_secret_makes_no_call() {
    let mut calls: u32 = 0;
    let mut t = user_token(Some(String::from("refreshtoken")), None);
    let r = drive_refresh(&mut t, &mut |_req| {
        calls += 1;
        Ok((200, Vec::new()))
    });
    assert!(matches!(r, Err(RefreshError::NoClientSecret)));
    assert_eq!(calls, 0);
    assert_eq!(t.token().as_str(), "accesstoken");
}

#[test]
fn successful_refresh_replaces_token_material() {
    let mut calls: u32 = 0;
    let mut t = user_token(
        Some(String::from("oldrefresh")),
        Some(String::from("secret")),
    );
    let body = String::from(
        "{\"access_token\":\"newtoken\",\"refresh_token\":\"newrefresh\",\"expires_in\":7200}",
    );
    let r = drive_refresh(&mut t, &mut |req| {
        calls += 1;
        assert_eq!(req.method.as_str(), "POST");
        assert!(req
            .url
            .starts_with("https://id.twitch.tv/oauth2/token?grant_type=refresh_token"));
        assert!(req.url.contains("&refresh_token=oldrefresh"));
        assert!(req.url.contains("&client_id=clientid"));
        assert!(req.url.contains("&client_secret=secret"));
        Ok((200, body.clone().into_bytes()))
    });
    assert!(r.is_ok());
    assert_eq!(calls, 1);
    assert_eq!(t.token().as_str(), "newtoken");
    assert_eq!(t.refresh_token.as_deref(), Some("newrefresh"));
    let remaining = t.remaining_lifetime();
    assert!(remaining.secs == 7200 && remaining.nanos == 0 || remaining.secs == 7199);
    // identity and secret survive the refresh
    assert_eq!(t.login().as_str(), "login");
    assert_eq!(t.client_id().as_str(), "clientid");
}

#[test]
fn refresh_dropping_refresh_token_cannot_refresh_again() {
    let mut t = user_token(
        Some(String::from("oldrefresh")),
        Some(String::from("secret")),
    );
    let body = String::from("{\"access_token\":\"newtoken\",\"expires_in\":7200}");
    let r = drive_refresh(&mut t, &mut |_req| Ok((200, body.clone().into_bytes())));
    assert!(r.is_ok());
    assert_eq!(t.refresh_token, None);
    let r = drive_refresh(&mut t, &mut |_req| panic!("no call expected"));
    assert!(matches!(r, Err(RefreshError::NoRefreshToken)));
}

#[test]
fn failed_refresh_leaves_token_unchanged() {
    let mut t = user_token(
        Some(String::from("oldrefresh")),
        Some(String::from("secret")),
    );
    let body = String::from("{\"status\":400,\"message\":\"Invalid refresh token\"}");
    let r = drive_refresh(&mut t, &mut |_req| Ok((400, body.clone().into_bytes())));
    match r {
        Err(RefreshError::ProviderError(p)) => {
            assert_eq!(p.status, 400);
            assert_eq!(p.message.as_str(), "Invalid refresh token");
        }
        other => panic!("unexpected outcome: {:?}", other),
    }
    assert_eq!(t.token().as_str(), "accesstoken");
    assert_eq!(t.refresh_token.as_deref(), Some("oldrefresh"));
}

#[test]
fn unparseable_provider_error_is_redacted_to_its_status() {
    let r = grant_response(502, None, None);
    assert!(matches!(r, Err(ProviderFailure::Unrecognized(502))));
    let r = grant_response(400, None, None);
    assert!(matches!(r, Err(ProviderFailure::Unrecognized(400))));
}

#[test]
fn transport_failure_is_passed_through() {
    let mut t = user_token(
        Some(String::from("oldrefresh")),
        Some(String::from("secret")),
    );
    let r = drive_refresh(&mut t, &mut |_req| Err(String::from("connection reset")));
    match r {
        Err(RefreshError::TransportError(m)) => assert_eq!(m.as_str(), "connection reset"),
        other => panic!("unexpected outcome: {:?}", other),
    }
    assert_eq!(t.token().as_str(), "accesstoken");
}

#[test]
fn zero_reported_expiry_means_never_expiring() {
    let validated = ValidatedTokenData {
        client_id: String::from("clientid"),
        login: Some(String::from("login")),
        user_id: Some(String::from("42")),
        scopes: None,
        expires_in: Duration::zero(),
    };
    let t = UserToken::from_existing(
        String::from("accesstoken"),
        None,
        None,
        validated,
    )
    .unwrap();
    assert!(t.never_expiring);
    assert!(t.is_usable());
    assert_eq!(t.remaining_lifetime().secs, u64::MAX);
}

#[test]
fn validation_without_identity_is_rejected() {
    let no_login = ValidatedTokenData {
        client_id: String::from("clientid"),
        login: None,
        user_id: Some(String::from("42")),
        scopes: None,
        expires_in: Duration::from_secs(1000),
    };
    let r = UserToken::from_existing(String::from("accesstoken"), None, None, no_login);
    assert!(matches!(r, Err(ValidationError::NoLogin)));
    let no_user_id = ValidatedTokenData {
        client_id: String::from("clientid"),
        login: Some(String::from("login")),
        user_id: None,
        scopes: None,
        expires_in: Duration::from_secs(1000),
    };
    let r = UserToken::from_existing(String::from("accesstoken"), None, None, no_user_id);
    assert!(matches!(r, Err(ValidationError::NoUserId)));
}

#[test]
fn validation_rejection_is_not_authorized() {
    let r = validation_outcome(401, None);
    assert!(matches!(r, Err(ValidationError::NotAuthorized)));
    let r = validation_outcome(200, None);
    assert!(matches!(r, Err(ValidationError::NotAuthorized)));
}

#[test]
fn set_secret_enables_later_refresh() {
    let mut t = user_token(Some(String::from("refreshtoken")), None);
    assert!(matches!(
        t.refresh_request(),
        Err(RefreshError::NoClientSecret)
    ));
    t.set_secret(Some(String::from("secret")));
    assert!(t.refresh_request().is_ok());
}

#[test]
fn clone_keeps_the_token_material() {
    let t = user_token(Some(String::from("refreshtoken")), None);
    let c = t.clone();
    assert_eq!(c.access_token, t.access_token);
    assert_eq!(c.refresh_token, t.refresh_token);
    assert_eq!(c.login, t.login);
}

#[test]
fn user_tokens_are_user_typed() {
    assert_eq!(UserToken::token_type(), BearerTokenType::UserToken);
    let t = user_token(None, None);
    assert_eq!(t.scopes().len(), 1);
    assert_eq!(t.scopes()[0].as_str(), "chat:read");
    assert_eq!(t.user_id().as_str(), "42");
}

#[test]
fn refresh_with_unparseable_error_keeps_only_the_status() {
    let mut t = user_token(
        Some(String::from("oldrefresh")),
        Some(String::from("secret")),
    );
    let r = drive_refresh(&mut t, &mut |_req| Ok((500, Vec::new())));
    assert!(matches!(r, Err(RefreshError::UnrecognizedProviderError(500))));
    assert_eq!(t.token().as_str(), "accesstoken");
}

#[test]
fn zero_validity_token_is_never_usable() {
    let t = UserToken::from_existing_unchecked(
        String::from("accesstoken"),
        None,
        String::from("clientid"),
        None,
        String::from("login"),
        String::from("42"),
        None,
        Some(Duration::zero()),
    );
    assert!(!t.never_expires());
    assert!(!t.is_usable());
    assert_eq!(t.remaining_lifetime(), Duration::zero());
}
