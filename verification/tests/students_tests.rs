use entitlement_core::account::{User, UserCredentials};
use entitlement_core::envelope::{Response, Status};
use entitlement_core::hasher::{hash, verify, HashingError};
use entitlement_core::students::{
    account_created, check_admission, check_login, create_student, delete_student, get_student,
    login_student, starting_row,
};
use entitlement_core::token::{token_reply, AuthConfig, Claims, IssueError};

fn config() -> AuthConfig {
    AuthConfig::new("students secret".to_string(), 1).unwrap()
}

fn credentials(usr: &str, pwd: &str) -> UserCredentials {
    UserCredentials {
        usr: usr.to_string(),
        pwd: pwd.to_string(),
        current_costume: String::new(),
        costumes: vec![],
        achievements: vec![],
    }
}

fn account(id: i32, usr: &str, pwd_hash: &str) -> User {
    User {
        id,
        usr: usr.to_string(),
        pwd: pwd_hash.to_string(),
        current_costume: "default".to_string(),
        costumes: vec![],
        achievements: vec![],
    }
}

fn text_of(r: &Response) -> String {
    let value: serde_json::Value = serde_json::from_str(r.body()).unwrap();
    value.get("data").and_then(|d| d.as_str()).unwrap().to_string()
}

#[test]
fn student_shows_its_profile() {
    let a = account(3, "carol", "hash");
    let p = get_student(Ok(Some(a))).unwrap();
    assert_eq!(p.id, 3);
    assert_eq!(p.usr, "carol");
}

#[test]
fn student_that_is_not_there_is_not_found() {
    let r = get_student(Ok(None)).unwrap_err();
    assert_eq!(r.status(), Status::NotFound);
    assert_eq!(text_of(&r), "User Not Found");
}

#[test]
fn login_with_the_right_password_gives_a_token() {
    let cfg = config();
    let a = account(3, "carol", &hash("password123").unwrap());
    let creds = credentials("carol", "password123");
    assert_eq!(check_login(&creds, &Ok(Some(a.clone()))).unwrap(), 3);
    let r = login_student(&creds, &Ok(Some(a)), 1000, &cfg);
    assert_eq!(r.status(), Status::Success);
    let claims = Claims::verify(&text_of(&r), 1000, &cfg).unwrap();
    assert_eq!(claims.sub, 3);
    assert_eq!(claims.iat, 1000);
    assert_eq!(claims.exp, 4600);
}

#[test]
fn login_with_a_wrong_password_is_refused() {
    let a = account(3, "carol", &hash("password123").unwrap());
    let r = login_student(&credentials("carol", "password124"), &Ok(Some(a)), 1000, &config());
    assert_eq!(r.status(), Status::BadRequest);
    assert_eq!(text_of(&r), "Incorrect Password or Username");
}

#[test]
fn login_with_an_unknown_name_is_refused_alike() {
    let r = login_student(&credentials("nobody", "password123"), &Ok(None), 1000, &config());
    assert_eq!(r.status(), Status::BadRequest);
    assert_eq!(text_of(&r), "Incorrect Password or Username");
}

#[test]
fn login_against_a_malformed_hash_is_a_server_error() {
    let a = account(3, "carol", "plain text");
    let r = check_login(&credentials("carol", "password123"), &Ok(Some(a))).unwrap_err();
    assert_eq!(r.status(), Status::InternalServerError);
    assert_eq!(text_of(&r), "Failed to compare hashes the stored hash is malformed");
}

#[test]
fn login_that_cannot_issue_is_a_server_error() {
    let a = account(3, "carol", &hash("password123").unwrap());
    let r = login_student(&credentials("carol", "password123"), &Ok(Some(a)), usize::MAX, &config());
    assert_eq!(r.status(), Status::InternalServerError);
    assert_eq!(text_of(&r), "Failed to issue token");
}

#[test]
fn short_password_is_refused_before_anything_else() {
    let taken = account(1, "alice", "h");
    let r = check_admission(&credentials("alice", "1234567"), &Ok(Some(taken))).unwrap_err();
    assert_eq!(r.status(), Status::BadRequest);
    assert_eq!(text_of(&r), "Password Too Short");
    let r = create_student(credentials("alice", ""), &Ok(None)).unwrap_err();
    assert_eq!(text_of(&r), "Password Too Short");
}

#[test]
fn password_of_eight_bytes_is_long_enough() {
    assert!(check_admission(&credentials("alice", "12345678"), &Ok(None)).is_ok());
    assert!(check_admission(&credentials("alice", "\u{e9}\u{e9}\u{e9}\u{e9}"), &Ok(None)).is_ok());
    assert!(check_admission(&credentials("alice", "\u{e9}\u{e9}\u{e9}x"), &Ok(None)).is_err());
}

#[test]
fn taken_name_is_refused() {
    let taken = account(1, "alice", "h");
    let r = create_student(credentials("alice", "password123"), &Ok(Some(taken))).unwrap_err();
    assert_eq!(r.status(), Status::BadRequest);
    assert_eq!(text_of(&r), "Username Taken");
}

#[test]
fn new_account_starts_with_the_default_costume() {
    let row = create_student(credentials("alice", "password123"), &Ok(None)).unwrap();
    assert_eq!(row.usr, "alice");
    assert_ne!(row.pwd, "password123");
    assert_eq!(verify("password123", &row.pwd), Ok(true));
    assert_eq!(row.current_costume, "default");
    assert_eq!(row.costumes, vec!["default"]);
    assert!(row.achievements.is_empty());
}

#[test]
fn starting_row_takes_the_hash() {
    let mut creds = credentials("alice", "password123");
    creds.costumes = vec!["crown".to_string()];
    creds.current_costume = "crown".to_string();
    let row = starting_row(creds, Ok("blob".to_string())).unwrap();
    assert_eq!(row.usr, "alice");
    assert_eq!(row.pwd, "blob");
    assert_eq!(row.current_costume, "default");
    assert_eq!(row.costumes, vec!["default"]);
}

#[test]
fn hashing_failure_is_a_server_error() {
    let r = starting_row(credentials("alice", "password123"), Err(HashingError::Backend))
        .unwrap_err();
    assert_eq!(r.status(), Status::InternalServerError);
    assert_eq!(text_of(&r), "Unable to hash password the hashing backend failed");
}

#[test]
fn created_account_gets_a_token() {
    let cfg = config();
    let r = account_created(Ok(account(9, "alice", "h")), 50, &cfg);
    assert_eq!(r.status(), Status::Created);
    assert_eq!(Claims::verify(&text_of(&r), 50, &cfg).unwrap().sub, 9);
}

#[test]
fn failed_insert_is_a_server_error() {
    let r = account_created(Err("duplicate key".to_string()), 50, &config());
    assert_eq!(r.status(), Status::InternalServerError);
    assert_eq!(text_of(&r), "Failed to insert into server duplicate key");
}

#[test]
fn token_reply_reports_a_failure() {
    let r = token_reply(Err(IssueError::Signing), Status::Created);
    assert_eq!(r.status(), Status::InternalServerError);
    assert_eq!(text_of(&r), "Failed to issue token");
    let r = token_reply(Ok("abc".to_string()), Status::Created);
    assert_eq!(r.status(), Status::Created);
    assert_eq!(text_of(&r), "abc");
}

#[test]
fn deletion_goes_scores_first() {
    let a = account(4, "dave", "h");
    let pending = delete_student(Ok(Some(a.clone()))).unwrap();
    assert_eq!(pending.account_id(), 4);
    let next = pending.scores_deleted(Ok(3)).unwrap();
    assert_eq!(next.account_id(), 4);
    let r = next.account_deleted(Ok(a));
    assert_eq!(r.status(), Status::Success);
    assert_eq!(text_of(&r), "Account dave deleted");
}

#[test]
fn deleting_an_account_that_is_not_there() {
    let r = delete_student(Ok(None)).err().unwrap();
    assert_eq!(r.status(), Status::NotFound);
    assert_eq!(text_of(&r), "User Not Found");
}

#[test]
fn failure_to_delete_scores_stops_the_deletion() {
    let a = account(4, "dave", "h");
    let r = delete_student(Ok(Some(a.clone()))).unwrap().scores_deleted(Err("timeout".to_string())).err().unwrap();
    assert_eq!(r.status(), Status::InternalServerError);
    assert_eq!(text_of(&r), "Unable to delete users scores due to error timeout");
}

#[test]
fn failure_to_delete_the_account_is_reported_on_its_own() {
    let a = account(4, "dave", "h");
    let next = delete_student(Ok(Some(a.clone()))).unwrap().scores_deleted(Ok(0)).unwrap();
    let r = next.account_deleted(Err("row locked".to_string()));
    assert_eq!(r.status(), Status::InternalServerError);
    assert_eq!(text_of(&r), "Unable to delete user due to error row locked");
}

#[test]
fn store_errors_are_not_dropped() {
    let down = || Err::<Option<User>, String>("connection lost".to_string());
    let expected = "Failed to query the server due to error connection lost";
    let r = get_student(down()).unwrap_err();
    assert_eq!(r.status(), Status::InternalServerError);
    assert_eq!(text_of(&r), expected);
    let r = login_student(&credentials("carol", "password123"), &down(), 1, &config());
    assert_eq!(r.status(), Status::InternalServerError);
    assert_eq!(text_of(&r), expected);
    let r = create_student(credentials("carol", "password123"), &down()).unwrap_err();
    assert_eq!(r.status(), Status::InternalServerError);
    assert_eq!(text_of(&r), expected);
    let r = create_student(credentials("carol", "short"), &down()).unwrap_err();
    assert_eq!(text_of(&r), "Password Too Short");
    let r = delete_student(down()).err().unwrap();
    assert_eq!(r.status(), Status::InternalServerError);
    assert_eq!(text_of(&r), expected);
}

#[test]
fn registration_with_a_password_of_eight_bytes_is_created() {
    let cfg = config();
    let row = create_student(credentials("bob", "12345678"), &Ok(None)).unwrap();
    assert_eq!(row.usr, "bob");
    let stored = account(11, &row.usr, &row.pwd);
    let r = account_created(Ok(stored), 700, &cfg);
    assert_eq!(r.status(), Status::Created);
    assert_eq!(r.status().code(), 201);
    let claims = Claims::verify(&text_of(&r), 700, &cfg).unwrap();
    assert_eq!(claims, Claims { exp: 700 + 3600, iat: 700, sub: 11 });
}

#[test]
fn good_login_neither_shows_the_password_nor_the_hash() {
    let cfg = config();
    let blob = hash("password123").unwrap();
    let a = account(3, "carol", &blob);
    let r = login_student(&credentials("carol", "password123"), &Ok(Some(a)), 1000, &cfg);
    assert_eq!(r.status().code(), 200);
    assert!(!r.body().contains("password123"));
    assert!(!r.body().contains(&blob));
    assert_eq!(text_of(&r), Claims::new_token(3, 1000, &cfg).unwrap());
}
