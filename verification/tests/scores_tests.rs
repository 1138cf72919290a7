use entitlement_core::account::{InsertableScore, NewScore, Score, User};
use entitlement_core::envelope::Status;
use entitlement_core::scores::{
    add_score, get_scores, magnitude_of, score_added, scores_listed, scores_of, ScorePlan,
    ScoreQuery,
};
use entitlement_core::token::Claims;

fn account(id: i32) -> User {
    User {
        id,
        usr: "alice".to_string(),
        pwd: String::new(),
        current_costume: "default".to_string(),
        costumes: vec![],
        achievements: vec![],
    }
}

#[test]
fn magnitude_drops_the_sign() {
    assert_eq!(magnitude_of(0), 0);
    assert_eq!(magnitude_of(5), 5);
    assert_eq!(magnitude_of(-5), 5);
    assert_eq!(magnitude_of(i64::MAX), i64::MAX);
    assert_eq!(magnitude_of(i64::MIN + 1), i64::MAX);
    assert_eq!(magnitude_of(i64::MIN), i64::MAX);
}

#[test]
fn listing_defaults_to_a_hundred_from_the_start() {
    match get_scores(None, None, None, None) {
        ScorePlan::Query(q) => {
            assert_eq!(q, ScoreQuery { usr_id: None, limit: 100, offset: 0 })
        }
        other => panic!("unexpected {:?}", other),
    }
}

#[test]
fn listing_takes_offset_and_limit_without_sign() {
    match get_scores(Some(-20), Some(-5), None, Some(3)) {
        ScorePlan::Query(q) => {
            assert_eq!(q, ScoreQuery { usr_id: Some(3), limit: 5, offset: 20 })
        }
        other => panic!("unexpected {:?}", other),
    }
}

#[test]
fn id_wins_over_name() {
    match get_scores(None, Some(10), Some("alice".to_string()), Some(3)) {
        ScorePlan::Query(q) => assert_eq!(q.usr_id, Some(3)),
        other => panic!("unexpected {:?}", other),
    }
}

#[test]
fn name_without_id_is_looked_up() {
    match get_scores(Some(4), None, Some("alice".to_string()), None) {
        ScorePlan::Lookup { usr, limit, offset } => {
            assert_eq!(usr, "alice");
            assert_eq!(limit, 100);
            assert_eq!(offset, 4);
        }
        other => panic!("unexpected {:?}", other),
    }
}

#[test]
fn lookup_that_finds_the_account_lists_its_scores() {
    assert_eq!(
        scores_of(Ok(Some(account(8))), 10, 2).unwrap(),
        ScoreQuery { usr_id: Some(8), limit: 10, offset: 2 }
    );
}

#[test]
fn lookup_that_finds_nothing_lists_nothing() {
    let r = scores_of(Ok(None), 10, 2).unwrap_err();
    assert_eq!(r.status(), Status::Success);
    assert_eq!(r.body(), "{\"data\": []}");
}

#[test]
fn listed_scores_go_out_as_they_are() {
    let rows = vec![Score { id: 1, usr_id: 2, num_stars: 3, score: 4 }];
    assert_eq!(scores_listed(Ok(rows.clone())).unwrap(), rows);
    assert!(scores_listed(Ok(vec![])).unwrap().is_empty());
}

#[test]
fn failed_listing_is_a_server_error() {
    let r = scores_listed(Err("no connection".to_string())).unwrap_err();
    assert_eq!(r.status(), Status::InternalServerError);
    assert_eq!(r.body(), "{\"data\": \"Failed to query the server due to error no connection\"}");
}

#[test]
fn submitted_score_is_stored_for_the_subject() {
    let claims = Claims { exp: 10, iat: 0, sub: 12 };
    assert_eq!(
        add_score(&claims, NewScore { score: 100, num_stars: 12 }).unwrap(),
        InsertableScore { score: 100, num_stars: 12, usr_id: 12 }
    );
    assert_eq!(
        add_score(&claims, NewScore { score: -3, num_stars: 0 }).unwrap(),
        InsertableScore { score: -3, num_stars: 0, usr_id: 12 }
    );
}

#[test]
fn score_with_negative_stars_is_refused() {
    let claims = Claims { exp: 10, iat: 0, sub: 12 };
    let r = add_score(&claims, NewScore { score: 100, num_stars: -5 }).unwrap_err();
    assert_eq!(r.status(), Status::BadRequest);
    assert_eq!(r.status().code(), 400);
    assert_eq!(r.body(), "{\"data\": \"Stars Cannot Be Negative\"}");
    assert!(add_score(&claims, NewScore { score: 100, num_stars: -1 }).is_err());
    assert!(add_score(&claims, NewScore { score: 100, num_stars: i32::MIN }).is_err());
}

#[test]
fn stored_score_is_created() {
    let r = score_added(Ok(1));
    assert_eq!(r.status(), Status::Created);
    assert_eq!(r.body(), "{\"data\": \"\"}");
}

#[test]
fn score_that_was_not_stored_is_a_server_error() {
    let r = score_added(Err("disk full".to_string()));
    assert_eq!(r.status(), Status::InternalServerError);
    assert_eq!(r.body(), "{\"data\": \"Failed to insert into server disk full\"}");
}

#[test]
fn lookup_that_fails_is_a_server_error() {
    let r = scores_of(Err("down".to_string()), 10, 2).unwrap_err();
    assert_eq!(r.status(), Status::InternalServerError);
    assert_eq!(r.body(), "{\"data\": \"Failed to query the server due to error down\"}");
}
