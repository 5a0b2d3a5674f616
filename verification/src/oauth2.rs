//! Token-introspection logic of the OAuth2 provider routes.
//!
//! The handler authenticates the calling client — from a `Basic`
//! authorization header or from form credentials — looks the token up by
//! value and provider, and answers with the token's activity, scope and
//! claims. The base64 decoding of the header is the outside crate's work;
//! database lookups and JSON parsing of the stored ID token happen outside
//! and their outcomes are handed in as values.

use vstd::prelude::*;

use crate::expiring::{current_timestamp, expired_at_timestamp, ExpiringModel};

verus! {

/// What a `Basic` authorization header decodes to: the user id and password
/// carried in its base64 payload, or nothing when the header is not a valid
/// `Basic` header. The result is a function of the header text alone.
pub uninterp spec fn basic_credentials_of(header: Seq<char>) -> Option<(Seq<char>, Seq<char>)>;

/// Relies on http_auth_basic::Credentials::from_header: decodes a `Basic`
/// authorization header value into the user id and password encoded in its
/// base64 payload, a function of the header text alone.
#[verifier::external_body]
fn decode_basic_auth(header: &str) -> (r: Option<(String, String)>)
    ensures
        match (r, basic_credentials_of(header@)) {
            (Some(c), Some(d)) => c.0@ == d.0 && c.1@ == d.1,
            (None, None) => true,
            _ => false,
        },
{
    match http_auth_basic::Credentials::from_header(header.to_owned()) {
        Ok(c) => Some((c.user_id, c.password)),
        Err(_) => None,
    }
}

/// The client id and secret a caller authenticated with.
pub struct ClientCredentials {
    /// OAuth2 client id.
    pub client_id: String,
    /// OAuth2 client secret.
    pub client_secret: String,
}

/// The credentials a caller presents: the `Basic` header's pair when the
/// header decodes and both parts are non-empty; otherwise the form's client
/// id and secret when both are given and non-empty; otherwise none.
pub open spec fn spec_client_auth(
    header: Seq<char>,
    client_id: Option<Seq<char>>,
    client_secret: Option<Seq<char>>,
) -> Option<(Seq<char>, Seq<char>)> {
    match basic_credentials_of(header) {
        Some(d) => if d.0.len() > 0 && d.1.len() > 0 {
            Some(d)
        } else {
            None
        },
        None => match (client_id, client_secret) {
            (Some(id), Some(secret)) => if id.len() > 0 && secret.len() > 0 {
                Some((id, secret))
            } else {
                None
            },
            _ => None,
        },
    }
}

/// The contents of an optional string argument.
pub open spec fn opt_str_view(p: Option<&String>) -> Option<Seq<char>> {
    match p {
        Some(s) => Some(s@),
        None => None,
    }
}

/// Extracts the caller's client credentials: from the authorization header
/// when it is a valid `Basic` header carrying a non-empty user id and
/// password; otherwise from the form's client id and secret when both are
/// present and non-empty; otherwise nothing.
pub fn extra_client_auth(
    auth_header: &str,
    client_id: Option<&String>,
    client_secret: Option<&String>,
) -> (r: Option<ClientCredentials>)
    ensures
        r is Some <==> spec_client_auth(
            auth_header@,
            opt_str_view(client_id),
            opt_str_view(client_secret),
        ) is Some,
        r matches Some(c) ==> {
            let d = spec_client_auth(
                auth_header@,
                opt_str_view(client_id),
                opt_str_view(client_secret),
            )->0;
            c.client_id@ == d.0 && c.client_secret@ == d.1
        },
{
    if let Some((user_id, password)) = decode_basic_auth(auth_header) {
        if user_id.as_str().is_empty() || password.as_str().is_empty() {
            return None;
        }
        return Some(ClientCredentials { client_id: user_id, client_secret: password });
    }
    match (client_id, client_secret) {
        (Some(id), Some(secret)) => {
            if !id.as_str().is_empty() && !secret.as_str().is_empty() {
                Some(ClientCredentials { client_id: id.clone(), client_secret: secret.clone() })
            } else {
                None
            }
        }
        _ => None,
    }
}

/// A stored OAuth2 provider: the entity that client credentials are checked
/// against.
pub struct ProviderRecord {
    /// Primary key of the provider row.
    pub provider_ptr_id: i32,
    /// Registered client id.
    pub client_id: String,
    /// Registered client secret.
    pub client_secret: String,
}

/// Accepts the looked-up provider only when its registered client id and
/// secret both equal the caller's credentials.
pub fn verify_provider_credentials(provider: Option<ProviderRecord>, creds: &ClientCredentials) -> (r:
    Option<ProviderRecord>)
    ensures
        provider is None ==> r is None,
        provider matches Some(p) ==> if p.client_id@ == creds.client_id@ && p.client_secret@
            == creds.client_secret@ {
            r == provider
        } else {
            r is None
        },
{
    match provider {
        Some(p) => {
            let id_matches = p.client_id == creds.client_id;
            let secret_matches = p.client_secret == creds.client_secret;
            if id_matches && secret_matches {
                Some(p)
            } else {
                None
            }
        }
        None => None,
    }
}

/// Authenticates the calling client: extracts its credentials and accepts
/// the looked-up provider exactly when its registered client id and secret
/// match them. The provider row itself is looked up outside, by the
/// extracted client id.
pub fn authenticate_provider(
    provider_lookup: Option<ProviderRecord>,
    auth_header: &str,
    client_id: Option<&String>,
    client_secret: Option<&String>,
) -> (r: Option<ProviderRecord>)
    ensures
        spec_client_auth(auth_header@, opt_str_view(client_id), opt_str_view(client_secret))
            is None ==> r is None,
        provider_lookup is None ==> r is None,
        spec_client_auth(auth_header@, opt_str_view(client_id), opt_str_view(client_secret))
            matches Some(d) ==> (provider_lookup matches Some(p) ==> (if p.client_id@ == d.0
            && p.client_secret@ == d.1 {
            r == provider_lookup
        } else {
            r is None
        })),
{
    match extra_client_auth(auth_header, client_id, client_secret) {
        Some(creds) => verify_provider_credentials(provider_lookup, &creds),
        None => None,
    }
}

/// The audience claim of an ID token: one client, or several.
pub enum Audience {
    /// A single audience.
    One(String),
    /// A list of audiences.
    Many(Vec<String>),
}

/// The claims of a stored ID token, as the introspection answer returns
/// them. Parsing the stored JSON into this shape is outside work.
pub struct IDToken {
    /// Issuer.
    pub iss: Option<String>,
    /// Subject.
    pub sub: Option<String>,
    /// Audience.
    pub aud: Option<Audience>,
    /// Expiration time, seconds since the epoch.
    pub exp: Option<u64>,
    /// Issued-at time, seconds since the epoch.
    pub iat: Option<u64>,
    /// When the authentication occurred, seconds since the epoch.
    pub auth_time: Option<u64>,
    /// Authentication context class reference.
    pub acr: Option<String>,
    /// Authentication method references.
    pub amr: Option<Vec<String>>,
    /// Code hash.
    pub c_hash: Option<String>,
    /// Client-session nonce.
    pub nonce: Option<String>,
    /// Access-token hash.
    pub at_hash: Option<String>,
    /// Further claims, by name.
    pub claims: Vec<(String, String)>,
}

/// A stored OAuth2 access or refresh token.
pub struct TokenRecord {
    /// Primary key of the token row.
    pub id: i32,
    /// Provider the token belongs to.
    pub provider_id: i32,
    /// Whether the token was revoked.
    pub revoked: bool,
    /// Space-separated scopes granted to the token.
    pub scope: String,
    /// The token value itself.
    pub token: String,
    /// The stored ID token, as serialized JSON.
    pub id_token_raw: String,
    /// Expiration timestamp, seconds since the epoch.
    pub expires: i64,
    /// Whether the token expires at all.
    pub expiring: bool,
}

impl TokenRecord {
    /// Whether the token is expired at the given moment.
    pub fn expired_at(&self, now: i64) -> (r: bool)
        ensures
            r == (now > self.expires),
    {
        expired_at_timestamp(self.expires, now)
    }

    /// The token's scopes: the space-separated segments of its scope string.
    /// Joining them back with single spaces gives the stored string again
    /// ([`crate::text::lemma_split_join_identity`]), so the introspection
    /// answer carries the scope string verbatim.
    pub fn get_scope(&self) -> (r: Vec<String>)
        ensures
            crate::text::string_views(r@) == crate::text::spec_split_spaces(self.scope@),
    {
        crate::text::split_spaces(self.scope.as_str())
    }
}

impl ExpiringModel for TokenRecord {
    fn is_expired(&self) -> bool {
        let now = current_timestamp();
        self.expired_at(now)
    }
}

/// The introspection answer: whether the token is active, and — for a known
/// token — its scope, client and ID-token claims.
pub struct IntrospectionResponse {
    /// True only for a known, unexpired, unrevoked token whose stored ID
    /// token parses.
    pub active: bool,
    /// The token's scopes, space-separated.
    pub scope: Option<String>,
    /// The client id of the token's provider.
    pub client_id: Option<String>,
    /// The stored ID token's claims.
    pub id_token: Option<IDToken>,
}

impl IntrospectionResponse {
    /// The inactive answer: what an unknown caller or token gets.
    pub fn inactive() -> (r: IntrospectionResponse)
        ensures
            !r.active,
            r.scope is None,
            r.client_id is None,
            r.id_token is None,
    {
        IntrospectionResponse { active: false, scope: None, client_id: None, id_token: None }
    }
}

/// The introspection answer for one token lookup: inactive when the token is
/// unknown or its stored ID token did not parse; otherwise the token's
/// scope and claims, active exactly when it is neither expired at `now` nor
/// revoked.
pub fn introspection_response(
    provider: &ProviderRecord,
    token: Option<TokenRecord>,
    id_token: Option<IDToken>,
    now: i64,
) -> (r: IntrospectionResponse)
    ensures
        token is None ==> !r.active && r.scope is None && r.client_id is None
            && r.id_token is None,
        token is Some && id_token is None ==> !r.active && r.scope is None && r.client_id is None
            && r.id_token is None,
        token matches Some(t) ==> (id_token is Some ==> {
            &&& r.active == (!(now > t.expires) && !t.revoked)
            &&& (r.scope matches Some(s) && s@ == t.scope@)
            &&& (r.client_id matches Some(c) && c@ == provider.client_id@)
            &&& r.id_token == id_token
        }),
{
    match token {
        Some(t) => match id_token {
            Some(claims) => {
                let expired = t.expired_at(now);
                IntrospectionResponse {
                    active: !expired && !t.revoked,
                    scope: Some(t.scope.clone()),
                    client_id: Some(provider.client_id.clone()),
                    id_token: Some(claims),
                }
            }
            None => IntrospectionResponse::inactive(),
        },
        None => IntrospectionResponse::inactive(),
    }
}

/// The whole introspection decision for one authenticated provider: the
/// access token found for the presented value answers if there is one — the
/// refresh token is consulted only when no access token matched. Each lookup
/// arrives with the parse outcome of its stored ID token.
pub fn token_introspection(
    provider: &ProviderRecord,
    access: Option<(TokenRecord, Option<IDToken>)>,
    refresh: Option<(TokenRecord, Option<IDToken>)>,
    now: i64,
) -> (r: IntrospectionResponse)
    ensures
        access matches Some(pair) ==> {
            &&& (pair.1 is Some ==> r.active == (!(now > pair.0.expires) && !pair.0.revoked)
                && (r.scope matches Some(s) && s@ == pair.0.scope@) && (r.client_id matches Some(c)
                && c@ == provider.client_id@) && r.id_token == pair.1)
            &&& (pair.1 is None ==> !r.active && r.scope is None && r.client_id is None
                && r.id_token is None)
        },
        access is None ==> (refresh matches Some(pair) ==> {
            &&& (pair.1 is Some ==> r.active == (!(now > pair.0.expires) && !pair.0.revoked)
                && (r.scope matches Some(s) && s@ == pair.0.scope@) && (r.client_id matches Some(c)
                && c@ == provider.client_id@) && r.id_token == pair.1)
            &&& (pair.1 is None ==> !r.active && r.scope is None && r.client_id is None
                && r.id_token is None)
        }),
        access is None && refresh is None ==> !r.active && r.scope is None && r.client_id is None
            && r.id_token is None,
{
    match access {
        Some((token, id_token)) => introspection_response(provider, Some(token), id_token, now),
        None => match refresh {
            Some((token, id_token)) => introspection_response(provider, Some(token), id_token, now),
            None => IntrospectionResponse::inactive(),
        },
    }
}

} // verus!
