use sumup::api::Method;
use sumup::config::GrantType;
use sumup::{AuthError, Config, Error, SessionStart, SumUp};

fn password_config() -> Config {
    Config {
        client_id: "client".to_owned(),
        client_secret: "secret".to_owned(),
        username: Some("user".to_owned()),
        password: Some("pass".to_owned()),
        grant_type: GrantType::Password,

        ..Default::default()
    }
}

fn session_with_refresh_token() -> SumUp {
    let config = Config {
        access_token: Some("token".to_owned()),
        refresh_token: Some("refresh".to_owned()),
        ..Default::default()
    };
    match SumUp::from(config) {
        Ok(SessionStart::Ready(s)) => s,
        _ => panic!("a pre-supplied access token must resolve locally"),
    }
}

#[test]
fn new_prepares_an_authorization_code_exchange() {
    let pending = match SumUp::new("client", "secret", "the-code") {
        Ok(SessionStart::Exchange(p)) => p,
        _ => panic!("the authorization-code grant must prepare an exchange"),
    };

    assert_eq!(pending.request.method, Method::Post);
    assert_eq!(pending.request.url, "https://api.sumup.com/token");
    assert_eq!(pending.request.payload.grant_type, "authorization_code");
    assert_eq!(pending.request.payload.client_id, "client");
    assert_eq!(pending.request.payload.client_secret, "secret");
    assert_eq!(pending.request.payload.code.as_deref(), Some("the-code"));
    assert!(pending.request.payload.username.is_none());
    assert!(pending.request.payload.refresh_token.is_none());
}

#[test]
fn resolve_presupplied_access_token() {
    let config = Config {
        access_token: Some("abc".to_owned()),
        refresh_token: Some("r1".to_owned()),
        scopes: Some("payments".to_owned()),
        ..Default::default()
    };

    let session = match SumUp::from(config) {
        Ok(SessionStart::Ready(s)) => s,
        _ => panic!("a pre-supplied access token must resolve locally"),
    };

    let token = session.access_token();
    assert!(!token.access_token.is_empty());
    assert_eq!(token.access_token, "abc");
    assert_eq!(token.scope.as_deref(), Some("payments"));
    assert_eq!(token.refresh_token.as_deref(), Some("r1"));
    assert_eq!(token.expires_in, Some(0));
    assert_eq!(token.bearer(), "Bearer abc");
}

#[test]
fn resolve_presupplied_refresh_token() {
    let config = Config {
        refresh_token: Some("r2".to_owned()),
        ..Default::default()
    };

    let session = match SumUp::from(config) {
        Ok(SessionStart::Ready(s)) => s,
        _ => panic!("a pre-supplied refresh token must resolve locally"),
    };

    let token = session.access_token();
    assert_eq!(token.access_token, "");
    assert_eq!(token.refresh_token.as_deref(), Some("r2"));
    assert_eq!(token.expires_in, Some(0));
}

#[test]
fn resolve_authorization_code_grant() {
    let config = Config::new("client", "secret", "the-code");

    let pending = match SumUp::from(config) {
        Ok(SessionStart::Exchange(p)) => p,
        _ => panic!("the authorization-code grant must prepare an exchange"),
    };
    assert_eq!(pending.request.payload.grant_type, "authorization_code");

    let session = pending
        .complete(200, "{\"access_token\": \"fresh\", \"token_type\": \"Bearer\"}")
        .unwrap();
    assert!(!session.access_token().access_token.is_empty());
    assert_eq!(session.access_token().access_token, "fresh");
    assert_eq!(session.access_token().token_type.as_deref(), Some("Bearer"));
}

#[test]
fn resolve_client_credentials_grant() {
    let config = Config {
        client_id: "client".to_owned(),
        client_secret: "secret".to_owned(),
        grant_type: GrantType::ClientCredentials,
        scopes: Some("payments history".to_owned()),
        ..Default::default()
    };

    let pending = match SumUp::from(config) {
        Ok(SessionStart::Exchange(p)) => p,
        _ => panic!("the client-credentials grant must prepare an exchange"),
    };
    assert_eq!(pending.request.payload.grant_type, "client_credentials");
    assert_eq!(pending.request.payload.scope.as_deref(), Some("payments history"));
    assert!(pending.request.payload.code.is_none());

    let session = pending
        .complete(200, "{\"access_token\": \"cc-token\", \"expires_in\": 3600}")
        .unwrap();
    assert!(!session.access_token().access_token.is_empty());
    assert_eq!(session.access_token().expires_in, Some(3600));
}

#[test]
fn resolve_password_grant() {
    let pending = match SumUp::from(password_config()) {
        Ok(SessionStart::Exchange(p)) => p,
        _ => panic!("a complete password configuration must prepare an exchange"),
    };
    assert_eq!(pending.request.payload.grant_type, "password");
    assert_eq!(pending.request.payload.username.as_deref(), Some("user"));
    assert_eq!(pending.request.payload.password.as_deref(), Some("pass"));

    let session = pending.complete(200, "{\"access_token\": \"pw-token\"}").unwrap();
    assert!(!session.access_token().access_token.is_empty());
}

#[test]
fn password_grant_missing_username() {
    let config = Config {
        username: None,
        ..password_config()
    };

    match SumUp::from(config) {
        Err(Error::Auth(e)) => {
            assert_eq!(e, AuthError::MissingUsername);
            assert_eq!(e.message(), "Missing username configuration");
        }
        _ => panic!("a password grant without a username must fail"),
    }
}

#[test]
fn password_grant_missing_password() {
    let config = Config {
        password: None,
        ..password_config()
    };

    match SumUp::from(config) {
        Err(Error::Auth(e)) => {
            assert_eq!(e, AuthError::MissingPassword);
            assert_ne!(e, AuthError::MissingUsername);
            assert_ne!(e.message(), AuthError::MissingUsername.message());
        }
        _ => panic!("a password grant without a password must fail"),
    }
}

#[test]
fn refresh_token() {
    let mut api = session_with_refresh_token();
    let access_token = api.access_token().clone();

    let request = api.refresh_token(None).unwrap();
    assert_eq!(request.payload.grant_type, "refresh_token");
    assert_eq!(request.payload.refresh_token.as_deref(), Some("refresh"));

    api.apply_refresh(200, "{\"access_token\": \"renewed\", \"refresh_token\": \"next\"}")
        .unwrap();

    assert_ne!(access_token, *api.access_token());
    assert_eq!(api.access_token().access_token, "renewed");
    assert_eq!(api.access_token().refresh_token.as_deref(), Some("next"));
}

#[test]
fn refresh_explicit_token_matches_fallback() {
    let api = session_with_refresh_token();

    let explicit = api.refresh_token(Some("refresh")).unwrap();
    let fallback = api.refresh_token(None).unwrap();

    assert_eq!(explicit, fallback);
}

#[test]
fn refresh_without_any_token_fails() {
    let config = Config {
        access_token: Some("abc".to_owned()),
        ..Default::default()
    };
    let api = match SumUp::from(config) {
        Ok(SessionStart::Ready(s)) => s,
        _ => panic!("a pre-supplied access token must resolve locally"),
    };

    match api.refresh_token(None) {
        Err(Error::Auth(e)) => assert_eq!(e, AuthError::NoRefreshToken),
        _ => panic!("a refresh without any token must fail"),
    }
    assert_eq!(api.access_token().access_token, "abc");
}

#[test]
fn failed_refresh_leaves_the_credential() {
    let mut api = session_with_refresh_token();
    let access_token = api.access_token().clone();

    let outcome = api.apply_refresh(401, "{\"error\": \"x\", \"error_description\": \"y\"}");

    assert!(outcome.is_err());
    assert_eq!(access_token, *api.access_token());
}
