use entitlement_core::token::{AuthError, ClaimFields, Claims};

fn fields(sub: i128, iat: i128, exp: i128) -> ClaimFields {
    ClaimFields { sub: Some(sub), iat: Some(iat), exp: Some(exp) }
}

#[test]
fn complete_fields_give_claims() {
    assert_eq!(
        Claims::from_fields(&fields(7, 100, 200)),
        Some(Claims { exp: 200, iat: 100, sub: 7 })
    );
}

#[test]
fn a_missing_field_gives_nothing() {
    assert_eq!(Claims::from_fields(&ClaimFields { sub: None, iat: Some(1), exp: Some(2) }), None);
    assert_eq!(Claims::from_fields(&ClaimFields { sub: Some(1), iat: None, exp: Some(2) }), None);
    assert_eq!(Claims::from_fields(&ClaimFields { sub: Some(1), iat: Some(1), exp: None }), None);
}

#[test]
fn fields_out_of_range_give_nothing() {
    assert_eq!(Claims::from_fields(&fields(i32::MAX as i128 + 1, 1, 2)), None);
    assert_eq!(Claims::from_fields(&fields(i32::MIN as i128 - 1, 1, 2)), None);
    assert_eq!(Claims::from_fields(&fields(1, -1, 2)), None);
    assert_eq!(Claims::from_fields(&fields(1, 1, -2)), None);
    assert_eq!(Claims::from_fields(&fields(1, usize::MAX as i128 + 1, 2)), None);
    assert_eq!(Claims::from_fields(&fields(1, 1, usize::MAX as i128 + 1)), None);
    assert!(Claims::from_fields(&fields(i32::MAX as i128, 0, usize::MAX as i128)).is_some());
    assert!(Claims::from_fields(&fields(i32::MIN as i128, 0, 0)).is_some());
}

#[test]
fn check_decides_by_the_window() {
    let f = Some(fields(3, 10, 20));
    assert_eq!(Claims::check(f, 9), Err(AuthError::NotYetValid));
    assert_eq!(Claims::check(f, 10), Ok(Claims { exp: 20, iat: 10, sub: 3 }));
    assert_eq!(Claims::check(f, 19), Ok(Claims { exp: 20, iat: 10, sub: 3 }));
    assert_eq!(Claims::check(f, 20), Err(AuthError::Expired));
    assert_eq!(Claims::check(f, 21), Err(AuthError::Expired));
}

#[test]
fn check_turns_away_what_did_not_decode() {
    assert_eq!(Claims::check(None, 5), Err(AuthError::Malformed));
    assert_eq!(
        Claims::check(Some(ClaimFields { sub: None, iat: Some(1), exp: Some(9) }), 5),
        Err(AuthError::Malformed)
    );
}

#[test]
fn expiry_before_issue_is_expired() {
    assert_eq!(Claims::check(Some(fields(3, 20, 10)), 15), Err(AuthError::Expired));
    assert_eq!(Claims::check(Some(fields(3, 20, 10)), 5), Err(AuthError::NotYetValid));
}
