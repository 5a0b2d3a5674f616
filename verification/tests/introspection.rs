use authentik_router::expiring::ExpiringModel;
use authentik_router::oauth2::{
    authenticate_provider, extra_client_auth, introspection_response, token_introspection,
    verify_provider_credentials, ClientCredentials, IDToken, ProviderRecord, TokenRecord,
};

fn provider() -> ProviderRecord {
    ProviderRecord {
        provider_ptr_id: 7,
        client_id: "client-abc".to_string(),
        client_secret: "secret-xyz".to_string(),
    }
}

fn token(revoked: bool, expires: i64) -> TokenRecord {
    TokenRecord {
        id: 1,
        provider_id: 7,
        revoked,
        scope: "openid email profile".to_string(),
        token: "tok".to_string(),
        id_token_raw: "{}".to_string(),
        expires,
        expiring: true,
    }
}

fn claims() -> IDToken {
    IDToken {
        iss: Some("https://issuer".to_string()),
        sub: Some("user-1".to_string()),
        aud: None,
        exp: Some(2000),
        iat: Some(1000),
        auth_time: None,
        acr: None,
        amr: None,
        c_hash: None,
        nonce: None,
        at_hash: None,
        claims: Vec::new(),
    }
}

// "dXNlcjpwYXNz" is the base64 of "user:pass".
#[test]
fn basic_header_credentials_are_used_first() {
    let creds = extra_client_auth("Basic dXNlcjpwYXNz", None, None);
    let creds = creds.expect("a valid Basic header must authenticate");
    assert_eq!(creds.client_id, "user");
    assert_eq!(creds.client_secret, "pass");

    // The header wins over form credentials.
    let form_id = "form-id".to_string();
    let form_secret = "form-secret".to_string();
    let creds = extra_client_auth("Basic dXNlcjpwYXNz", Some(&form_id), Some(&form_secret))
        .expect("a valid Basic header must authenticate");
    assert_eq!(creds.client_id, "user");
}

// "OnBhc3M=" is the base64 of ":pass": an empty user id.
#[test]
fn empty_header_credentials_are_rejected() {
    assert!(extra_client_auth("Basic OnBhc3M=", None, None).is_none());
}

#[test]
fn form_credentials_back_the_header_up() {
    let id = "form-id".to_string();
    let secret = "form-secret".to_string();
    let creds =
        extra_client_auth("", Some(&id), Some(&secret)).expect("form credentials must be accepted");
    assert_eq!(creds.client_id, "form-id");
    assert_eq!(creds.client_secret, "form-secret");

    let empty = String::new();
    assert!(extra_client_auth("", Some(&empty), Some(&secret)).is_none());
    assert!(extra_client_auth("", Some(&id), None).is_none());
    assert!(extra_client_auth("", None, None).is_none());
}

#[test]
fn provider_is_accepted_only_on_matching_credentials() {
    let good = ClientCredentials {
        client_id: "client-abc".to_string(),
        client_secret: "secret-xyz".to_string(),
    };
    let accepted = verify_provider_credentials(Some(provider()), &good);
    assert_eq!(accepted.map(|p| p.provider_ptr_id), Some(7));

    let bad_secret = ClientCredentials {
        client_id: "client-abc".to_string(),
        client_secret: "wrong".to_string(),
    };
    assert!(verify_provider_credentials(Some(provider()), &bad_secret).is_none());
    assert!(verify_provider_credentials(None, &good).is_none());
}

#[test]
fn authentication_composes_extraction_and_verification() {
    // "Y2xpZW50LWFiYzpzZWNyZXQteHl6" is the base64 of "client-abc:secret-xyz".
    let accepted = authenticate_provider(
        Some(provider()),
        "Basic Y2xpZW50LWFiYzpzZWNyZXQteHl6",
        None,
        None,
    );
    assert_eq!(accepted.map(|p| p.provider_ptr_id), Some(7));

    // Wrong secret in the header: the provider is refused.
    let refused = authenticate_provider(Some(provider()), "Basic dXNlcjpwYXNz", None, None);
    assert!(refused.is_none());

    // No credentials at all: refused without consulting the lookup.
    assert!(authenticate_provider(Some(provider()), "", None, None).is_none());
}

#[test]
fn access_token_answers_before_the_refresh_token() {
    let r = token_introspection(
        &provider(),
        Some((token(false, 5000), Some(claims()))),
        Some((token(true, 0), Some(claims()))),
        4000,
    );
    assert!(r.active);

    // A matched access token whose stored claims do not parse answers
    // inactive; the refresh token is not consulted.
    let r = token_introspection(
        &provider(),
        Some((token(false, 5000), None)),
        Some((token(false, 5000), Some(claims()))),
        4000,
    );
    assert!(!r.active);
    assert_eq!(r.scope, None);

    // Without an access token the refresh token answers.
    let r = token_introspection(
        &provider(),
        None,
        Some((token(false, 5000), Some(claims()))),
        4000,
    );
    assert!(r.active);

    let r = token_introspection(&provider(), None, None, 4000);
    assert!(!r.active);
    assert_eq!(r.client_id, None);
}

#[test]
fn introspection_of_a_live_token_is_active() {
    let r = introspection_response(&provider(), Some(token(false, 5000)), Some(claims()), 4000);
    assert!(r.active);
    assert_eq!(r.scope, Some("openid email profile".to_string()));
    assert_eq!(r.client_id, Some("client-abc".to_string()));
    let id_token = r.id_token.expect("claims must be returned");
    assert_eq!(id_token.sub, Some("user-1".to_string()));
}

#[test]
fn introspection_of_an_expired_or_revoked_token_is_inactive() {
    let expired = introspection_response(&provider(), Some(token(false, 3000)), Some(claims()), 4000);
    assert!(!expired.active);
    assert_eq!(expired.scope, Some("openid email profile".to_string()));

    let revoked = introspection_response(&provider(), Some(token(true, 5000)), Some(claims()), 4000);
    assert!(!revoked.active);
}

#[test]
fn introspection_of_an_unknown_token_is_bare_inactive() {
    let r = introspection_response(&provider(), None, None, 4000);
    assert!(!r.active);
    assert_eq!(r.scope, None);
    assert_eq!(r.client_id, None);
    assert!(r.id_token.is_none());
}

#[test]
fn introspection_without_parseable_claims_is_bare_inactive() {
    let r = introspection_response(&provider(), Some(token(false, 5000)), None, 4000);
    assert!(!r.active);
    assert_eq!(r.scope, None);
    assert_eq!(r.client_id, None);
}

#[test]
fn scopes_are_the_space_separated_segments() {
    assert_eq!(
        token(false, 5000).get_scope(),
        vec!["openid".to_string(), "email".to_string(), "profile".to_string()]
    );

    let mut odd = token(false, 5000);
    odd.scope = "a  b ".to_string();
    assert_eq!(
        odd.get_scope(),
        vec![
            "a".to_string(),
            "".to_string(),
            "b".to_string(),
            "".to_string()
        ]
    );

    let mut empty = token(false, 5000);
    empty.scope = String::new();
    assert_eq!(empty.get_scope(), vec!["".to_string()]);
}

#[test]
fn token_expiry_follows_the_clock() {
    // Far in the future: not expired now.
    assert!(!token(false, i64::MAX).is_expired());
    // The epoch itself lies in the past.
    assert!(token(false, 0).is_expired());
    // At the boundary the token is not yet expired.
    assert!(!token(false, 4000).expired_at(4000));
    assert!(token(false, 4000).expired_at(4001));
}
