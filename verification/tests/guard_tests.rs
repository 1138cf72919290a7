use entitlement_core::account::User;
use entitlement_core::envelope::Status;
use entitlement_core::token::{AuthConfig, Claims};

fn config() -> AuthConfig {
    AuthConfig::new("guard secret".to_string(), 1).unwrap()
}

fn account(id: i32) -> User {
    User {
        id,
        usr: "alice".to_string(),
        pwd: String::new(),
        current_costume: "default".to_string(),
        costumes: vec![],
        achievements: vec![],
    }
}

#[test]
fn missing_header_is_unauthorized() {
    let r = Claims::from_request(None, 100, &config()).unwrap_err();
    assert_eq!(r.status(), Status::Unauthorized);
    assert_eq!(r.body(), "{\"data\": \"header missing\"}");
}

#[test]
fn bad_token_is_unauthorized() {
    let r = Claims::from_request(Some("nonsense"), 100, &config()).unwrap_err();
    assert_eq!(r.status(), Status::Unauthorized);
    assert_eq!(r.body(), "{\"data\": \"invalid token\"}");
}

#[test]
fn expired_token_is_unauthorized() {
    let cfg = config();
    let token = Claims::new_token(5, 100, &cfg).unwrap();
    let r = Claims::from_request(Some(&token), 100 + 3600, &cfg).unwrap_err();
    assert_eq!(r.status(), Status::Unauthorized);
    assert_eq!(r.body(), "{\"data\": \"invalid token\"}");
}

#[test]
fn token_of_another_secret_is_unauthorized() {
    let other = AuthConfig::new("someone else".to_string(), 1).unwrap();
    let token = Claims::new_token(5, 100, &other).unwrap();
    assert!(Claims::from_request(Some(&token), 100, &config()).is_err());
}

#[test]
fn good_token_lets_the_claims_through() {
    let cfg = config();
    let token = Claims::new_token(5, 100, &cfg).unwrap();
    let claims = Claims::from_request(Some(&token), 101, &cfg).unwrap();
    assert_eq!(claims, Claims { exp: 3700, iat: 100, sub: 5 });
}

#[test]
fn account_is_confirmed_when_the_store_holds_it() {
    let claims = Claims { exp: 10, iat: 0, sub: 5 };
    assert_eq!(claims.confirm_account(&Ok(Some(account(5)))).unwrap(), 5);
}

#[test]
fn account_that_is_gone_is_unauthorized() {
    let claims = Claims { exp: 10, iat: 0, sub: 5 };
    let r = claims.confirm_account(&Ok(None)).unwrap_err();
    assert_eq!(r.status(), Status::Unauthorized);
    assert_eq!(r.body(), "{\"data\": \"account no longer exists\"}");
    let r = claims.confirm_account(&Ok(Some(account(6)))).unwrap_err();
    assert_eq!(r.status(), Status::Unauthorized);
}

#[test]
fn store_that_cannot_be_asked_is_a_server_error() {
    let claims = Claims { exp: 10, iat: 0, sub: 5 };
    let r = claims.confirm_account(&Err("down".to_string())).unwrap_err();
    assert_eq!(r.status(), Status::InternalServerError);
    assert_eq!(r.body(), "{\"data\": \"Failed to query the server due to error down\"}");
}
