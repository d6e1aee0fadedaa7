//! Plain request data handed to the injected transport capability, and the
//! URL framing for the provider's endpoints. The library frames requests; a
//! driver outside it performs them.

use vstd::prelude::*;
use vstd::string::StringExecFns;
use crate::encode::{form_encode, form_encoded_str};

verus! {

/// A structured HTTP request: the library fills it in, the injected
/// capability sends it and hands back a status code and body bytes.
#[derive(Clone, Debug)]
pub struct HttpRequestData {
    /// The HTTP method, such as `POST` or `GET`.
    pub method: String,
    /// The full URL, query string included.
    pub url: String,
    /// Header name/value pairs.
    pub headers: Vec<(String, String)>,
    /// The request body.
    pub body: Vec<u8>,
}

/// One query parameter: `&`, the key, `=`, and the form-encoded value.
pub open spec fn spec_param(key: Seq<char>, value: Seq<char>) -> Seq<char> {
    "&"@ + key + "="@ + form_encoded_str(value)
}

/// Requested scopes joined into one space-separated string.
pub open spec fn spec_join_scopes(ss: Seq<Seq<char>>) -> Seq<char>
    decreases ss.len(),
{
    if ss.len() == 0 {
        Seq::empty()
    } else if ss.len() == 1 {
        ss[0]
    } else {
        ss[0] + " "@ + spec_join_scopes(ss.subrange(1, ss.len() as int))
    }
}

/// Appending one more scope extends the joined string by a space and the
/// scope, except on the first.
proof fn lemma_join_scopes_push(ss: Seq<Seq<char>>, x: Seq<char>)
    ensures
        spec_join_scopes(ss.push(x)) == if ss.len() == 0 {
            x
        } else {
            spec_join_scopes(ss) + " "@ + x
        },
    decreases ss.len(),
{
    if ss.len() == 0 {
        assert(ss.push(x).len() == 1);
        assert(ss.push(x)[0] == x);
    } else {
        let tail = ss.subrange(1, ss.len() as int);
        assert(ss.push(x).subrange(1, ss.push(x).len() as int) =~= tail.push(x));
        lemma_join_scopes_push(tail, x);
        assert(spec_join_scopes(ss.push(x)) =~= spec_join_scopes(ss) + " "@ + x);
    }
}

/// The views of the strings in `v`.
pub open spec fn views_of(v: Seq<String>) -> Seq<Seq<char>> {
    v.map_values(|s: String| s@)
}

/// Join scopes with single spaces, in order.
pub fn join_scopes(scopes: &Vec<String>) -> (r: String)
    ensures
        r@ == spec_join_scopes(views_of(scopes@)),
{
    let mut out = String::new();
    let mut i: usize = 0;
    while i < scopes.len()
        invariant
            i <= scopes.len(),
            out@ == spec_join_scopes(views_of(scopes@).subrange(0, i as int)),
        decreases scopes.len() - i,
    {
        if i > 0 {
            out.append(" ");
        }
        out.append(scopes[i].as_str());
        proof {
            let views = views_of(scopes@);
            assert(views.subrange(0, i as int).push(views[i as int]) =~= views.subrange(
                0,
                i + 1 as int,
            ));
            lemma_join_scopes_push(views.subrange(0, i as int), views[i as int]);
        }
        i += 1;
    }
    proof {
        assert(views_of(scopes@).subrange(0, scopes.len() as int) =~= views_of(scopes@));
    }
    out
}

/// Append `&key=value` with the value form-encoded.
pub(crate) fn push_param(url: &mut String, key: &str, value: &str)
    ensures
        final(url)@ == old(url)@ + spec_param(key@, value@),
{
    url.append("&");
    url.append(key);
    url.append("=");
    let encoded = form_encode(value);
    url.append(encoded.as_str());
    proof {
        assert(url@ =~= old(url)@ + spec_param(key@, value@));
    }
}

/// The grant-exchange URL for trading an authorization code for a token.
pub open spec fn spec_code_exchange_url(
    client_id: Seq<char>,
    client_secret: Seq<char>,
    code: Seq<char>,
    redirect_url: Seq<char>,
) -> Seq<char> {
    "https://id.twitch.tv/oauth2/token?grant_type=authorization_code"@ + spec_param(
        "client_id"@,
        client_id,
    ) + spec_param("client_secret"@, client_secret) + spec_param("code"@, code) + spec_param(
        "redirect_uri"@,
        redirect_url,
    )
}

/// The grant-exchange URL for trading a refresh token for a new token.
pub open spec fn spec_refresh_url(
    client_id: Seq<char>,
    client_secret: Seq<char>,
    refresh_token: Seq<char>,
) -> Seq<char> {
    "https://id.twitch.tv/oauth2/token?grant_type=refresh_token"@ + spec_param(
        "client_id"@,
        client_id,
    ) + spec_param("client_secret"@, client_secret) + spec_param("refresh_token"@, refresh_token)
}

/// The grant-exchange URL for the client-credentials flow.
pub open spec fn spec_client_credentials_url(
    client_id: Seq<char>,
    client_secret: Seq<char>,
) -> Seq<char> {
    "https://id.twitch.tv/oauth2/token?grant_type=client_credentials"@ + spec_param(
        "client_id"@,
        client_id,
    ) + spec_param("client_secret"@, client_secret)
}

/// An empty POST to `url`: the provider's grant-exchange endpoint takes its
/// fields in the query string.
pub(crate) fn post_request(url: String) -> (r: HttpRequestData)
    ensures
        r.method@ == "POST"@,
        r.url == url,
        r.headers@.len() == 0,
        r.body@.len() == 0,
{
    HttpRequestData {
        method: String::from_str("POST"),
        url,
        headers: Vec::new(),
        body: Vec::new(),
    }
}

/// Frame the POST that exchanges an authorization code for a token.
pub fn code_exchange_request(
    client_id: &str,
    client_secret: &str,
    code: &str,
    redirect_url: &str,
) -> (r: HttpRequestData)
    ensures
        r.method@ == "POST"@,
        r.url@ == spec_code_exchange_url(client_id@, client_secret@, code@, redirect_url@),
        r.headers@.len() == 0,
        r.body@.len() == 0,
{
    let mut url = String::from_str("https://id.twitch.tv/oauth2/token?grant_type=authorization_code");
    push_param(&mut url, "client_id", client_id);
    push_param(&mut url, "client_secret", client_secret);
    push_param(&mut url, "code", code);
    push_param(&mut url, "redirect_uri", redirect_url);
    post_request(url)
}

/// Frame the POST that exchanges a refresh token for a new token.
pub fn refresh_exchange_request(
    client_id: &str,
    client_secret: &str,
    refresh_token: &str,
) -> (r: HttpRequestData)
    ensures
        r.method@ == "POST"@,
        r.url@ == spec_refresh_url(client_id@, client_secret@, refresh_token@),
        r.headers@.len() == 0,
        r.body@.len() == 0,
{
    let mut url = String::from_str("https://id.twitch.tv/oauth2/token?grant_type=refresh_token");
    push_param(&mut url, "client_id", client_id);
    push_param(&mut url, "client_secret", client_secret);
    push_param(&mut url, "refresh_token", refresh_token);
    post_request(url)
}

/// Frame the POST of the client-credentials flow, which produces an app token
/// bound to no user.
pub fn client_credentials_request(client_id: &str, client_secret: &str) -> (r: HttpRequestData)
    ensures
        r.method@ == "POST"@,
        r.url@ == spec_client_credentials_url(client_id@, client_secret@),
        r.headers@.len() == 0,
        r.body@.len() == 0,
{
    let mut url = String::from_str("https://id.twitch.tv/oauth2/token?grant_type=client_credentials");
    push_param(&mut url, "client_id", client_id);
    push_param(&mut url, "client_secret", client_secret);
    post_request(url)
}

/// Frame the GET that asks the validation endpoint about an access token,
/// carried in the authorization header.
pub fn validate_request(access_token: &str) -> (r: HttpRequestData)
    ensures
        r.method@ == "GET"@,
        r.url@ == "https://id.twitch.tv/oauth2/validate"@,
        r.headers@.len() == 1,
        r.headers@[0].0@ == "Authorization"@,
        r.headers@[0].1@ == "OAuth "@ + access_token@,
        r.body@.len() == 0,
{
    let mut headers: Vec<(String, String)> = Vec::new();
    let value = String::from_str("OAuth ").concat(access_token);
    headers.push((String::from_str("Authorization"), value));
    HttpRequestData {
        method: String::from_str("GET"),
        url: String::from_str("https://id.twitch.tv/oauth2/validate"),
        headers,
        body: Vec::new(),
    }
}

} // verus!
