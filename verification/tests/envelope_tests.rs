use entitlement_core::envelope::{wrap, Response, ResponseBuilder, Status};

#[test]
fn wrap_frames_the_payload() {
    assert_eq!(wrap("1".to_string()), "{\"data\": 1}");
    assert_eq!(wrap(String::new()), "{\"data\": }");
    assert_eq!(wrap("[1,2]".to_string()), "{\"data\": [1,2]}");
}

#[test]
fn status_codes() {
    assert_eq!(Status::Success.code(), 200);
    assert_eq!(Status::Created.code(), 201);
    assert_eq!(Status::BadRequest.code(), 400);
    assert_eq!(Status::Unauthorized.code(), 401);
    assert_eq!(Status::NotFound.code(), 404);
    assert_eq!(Status::InternalServerError.code(), 500);
}

#[test]
fn build_keeps_status_of_an_encoded_payload() {
    let r = ResponseBuilder { data: Ok("{\"id\":1}".to_string()), status: Status::Created }.build();
    assert_eq!(r.body(), "{\"data\": {\"id\":1}}");
    assert_eq!(r.status(), Status::Created);
}

#[test]
fn build_downgrades_a_payload_that_did_not_encode() {
    let r = ResponseBuilder { data: Err("key must be a string".to_string()), status: Status::Success }
        .build();
    assert_eq!(
        r.body(),
        "{\"data\": \"Failed to serialize object to json key must be a string\"}"
    );
    assert_eq!(r.status(), Status::InternalServerError);
}

#[test]
fn text_is_encoded_as_a_json_string() {
    let r = Response::text("User Not Found", Status::NotFound);
    assert_eq!(r.body(), "{\"data\": \"User Not Found\"}");
    assert_eq!(r.status(), Status::NotFound);
}

#[test]
fn text_is_escaped() {
    let r = Response::text("a \"quoted\" \\ line\nbreak", Status::Success);
    assert_eq!(r.body(), "{\"data\": \"a \\\"quoted\\\" \\\\ line\\nbreak\"}");
    let value: serde_json::Value = serde_json::from_str(r.body()).unwrap();
    assert_eq!(value.get("data").and_then(|d| d.as_str()), Some("a \"quoted\" \\ line\nbreak"));
}

#[test]
fn builder_text_holds_the_encoding() {
    let b = ResponseBuilder::text("hi", Status::BadRequest);
    assert_eq!(b.data, Ok("\"hi\"".to_string()));
    assert_eq!(b.status, Status::BadRequest);
}

#[test]
fn default_builder_is_the_empty_text() {
    let b = ResponseBuilder::default();
    assert_eq!(b.data, Ok("\"\"".to_string()));
    assert_eq!(b.status, Status::Success);
    assert_eq!(b.build().body(), "{\"data\": \"\"}");
}

#[test]
fn failure_joins_context_and_detail() {
    let r = Response::failure("Failed to insert into server ", "connection refused");
    assert_eq!(r.body(), "{\"data\": \"Failed to insert into server connection refused\"}");
    assert_eq!(r.status(), Status::InternalServerError);
}

#[test]
fn data_goes_out_with_success() {
    let r = Response::data(Ok("[]".to_string()));
    assert_eq!(r.body(), "{\"data\": []}");
    assert_eq!(r.status(), Status::Success);
    let r = Response::data(Err("no".to_string()));
    assert_eq!(r.status(), Status::InternalServerError);
}

#[test]
fn health_says_online() {
    let r = Response::health();
    assert_eq!(r.body(), "{\"data\": \"Online\"}");
    assert_eq!(r.status(), Status::Success);
}

#[test]
fn store_failure_says_what_the_store_said() {
    let r = Response::store_failure("relation does not exist");
    assert_eq!(r.status(), Status::InternalServerError);
    assert_eq!(
        r.body(),
        "{\"data\": \"Failed to query the server due to error relation does not exist\"}"
    );
}
