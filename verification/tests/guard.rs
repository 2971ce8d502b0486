use auth_service::auth::guard::{strip_bearer, AuthenticatedUser};
use auth_service::auth::jwt::{Claims, JwtService, TokenError};
use auth_service::errors::AuthError;

fn service() -> JwtService {
    JwtService::new("top-secret".to_string())
}

fn identity(user_id: &str) -> AuthenticatedUser {
    AuthenticatedUser { user_id: user_id.to_string() }
}

#[test]
fn bearer_prefix_is_stripped() {
    assert_eq!(strip_bearer("Bearer abc"), Some("abc"));
    assert_eq!(strip_bearer("Bearer a.b.c"), Some("a.b.c"));
    assert_eq!(strip_bearer("Bearer "), Some(""));
    assert_eq!(strip_bearer("Bearer  abc"), Some(" abc"));
    assert_eq!(strip_bearer("Bearer Bearer abc"), Some("Bearer abc"));
    assert_eq!(strip_bearer("Bearer tökèn ü"), Some("tökèn ü"));
}

#[test]
fn other_headers_have_no_token() {
    assert_eq!(strip_bearer(""), None);
    assert_eq!(strip_bearer("Bearer"), None);
    assert_eq!(strip_bearer("bearer abc"), None);
    assert_eq!(strip_bearer("BEARER abc"), None);
    assert_eq!(strip_bearer("Basic abc"), None);
    assert_eq!(strip_bearer(" Bearer abc"), None);
    assert_eq!(strip_bearer("Bearer\tabc"), None);
    assert_eq!(strip_bearer("Bearerabc"), None);
    assert_eq!(strip_bearer("Beare"), None);
    assert_eq!(strip_bearer("Béarer abc"), None);
    assert_eq!(strip_bearer("日本語日本語日本語"), None);
}

#[test]
fn verified_claims_become_the_identity() {
    let claims = Claims { sub: "user-1".to_string(), exp: 87_400, iat: 1_000 };
    assert_eq!(AuthenticatedUser::from_verified(Ok(claims)), Ok(identity("user-1")));
}

#[test]
fn every_rejection_is_unauthenticated() {
    for error in [TokenError::InvalidSignature, TokenError::Expired, TokenError::Malformed] {
        assert_eq!(AuthenticatedUser::from_verified(Err(error)), Err(AuthError::Unauthenticated));
    }
}

#[test]
fn request_without_header_is_unauthenticated() {
    assert_eq!(
        AuthenticatedUser::from_request_at(&service(), None, 1_000),
        Err(AuthError::Unauthenticated)
    );
    assert_eq!(AuthenticatedUser::from_request(&service(), None), Err(AuthError::Unauthenticated));
}

#[test]
fn request_with_valid_token_passes() {
    let jwt = service();
    let token = jwt.generate_token_at("user-1".to_string(), 1_000).unwrap();
    let header = format!("Bearer {token}");
    assert_eq!(
        AuthenticatedUser::from_request_at(&jwt, Some(&header), 1_000),
        Ok(identity("user-1"))
    );
    assert_eq!(
        AuthenticatedUser::from_request_at(&jwt, Some(&header), 87_399),
        Ok(identity("user-1"))
    );
}

#[test]
fn request_without_the_scheme_is_unauthenticated() {
    let jwt = service();
    let token = jwt.generate_token_at("user-1".to_string(), 1_000).unwrap();
    for header in [
        token.clone(),
        format!("bearer {token}"),
        format!("Bearer{token}"),
        format!("Token {token}"),
        format!(" Bearer {token}"),
    ] {
        assert_eq!(
            AuthenticatedUser::from_request_at(&jwt, Some(&header), 1_000),
            Err(AuthError::Unauthenticated),
            "{header}"
        );
    }
}

#[test]
fn request_with_padded_token_is_unauthenticated() {
    let jwt = service();
    let token = jwt.generate_token_at("user-1".to_string(), 1_000).unwrap();
    let header = format!("Bearer  {token}");
    assert_eq!(
        AuthenticatedUser::from_request_at(&jwt, Some(&header), 1_000),
        Err(AuthError::Unauthenticated)
    );
}

#[test]
fn request_with_expired_token_is_unauthenticated() {
    let jwt = service();
    let token = jwt.generate_token_at("user-1".to_string(), 1_000).unwrap();
    let header = format!("Bearer {token}");
    assert_eq!(
        AuthenticatedUser::from_request_at(&jwt, Some(&header), 87_400),
        Err(AuthError::Unauthenticated)
    );
}

#[test]
fn request_with_foreign_or_broken_token_is_unauthenticated() {
    let jwt = service();
    let foreign = JwtService::new("other".to_string())
        .generate_token_at("user-1".to_string(), 1_000)
        .unwrap();
    for header in [format!("Bearer {foreign}"), "Bearer ".to_string(), "Bearer x.y.z".to_string()] {
        assert_eq!(
            AuthenticatedUser::from_request_at(&jwt, Some(&header), 1_000),
            Err(AuthError::Unauthenticated),
            "{header}"
        );
    }
}

#[test]
fn request_is_guarded_by_the_present_time() {
    let jwt = service();
    let fresh = format!("Bearer {}", jwt.generate_token("user-1".to_string()).unwrap());
    assert_eq!(AuthenticatedUser::from_request(&jwt, Some(&fresh)), Ok(identity("user-1")));
    let stale = format!("Bearer {}", jwt.generate_token_at("user-1".to_string(), 1_000).unwrap());
    assert_eq!(
        AuthenticatedUser::from_request(&jwt, Some(&stale)),
        Err(AuthError::Unauthenticated)
    );
}
