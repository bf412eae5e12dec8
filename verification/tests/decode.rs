use sumup::api::Api;
use sumup::errors::decode_error_body;
use sumup::{Error, Message, Response};

#[test]
fn short_error_object() {
    let error = decode_error_body("{\"error\": \"x\", \"error_description\": \"y\"}");

    match error {
        Error::Api(Response::Message(m)) => match *m {
            Message::Short { message, description } => {
                assert_eq!(message, "x");
                assert_eq!(description, "y");
            }
            _ => panic!("the short shape must win"),
        },
        _ => panic!("a decodable body must yield the structured error"),
    }
}

#[test]
fn short_shape_wins_over_long() {
    let error = decode_error_body(
        "{\"message\": \"m\", \"description\": \"d\", \"error_code\": \"c\"}",
    );

    match error {
        Error::Api(Response::Message(m)) => {
            assert!(matches!(*m, Message::Short { .. }));
        }
        _ => panic!("a decodable body must yield the structured error"),
    }
}

#[test]
fn long_error_object() {
    let error = decode_error_body("{\"error_message\": \"a\", \"status\": 42, \"title\": \"t\"}");

    match error {
        Error::Api(Response::Message(m)) => match *m {
            Message::Long { message, status, title, instance, .. } => {
                assert_eq!(message, "a");
                assert_eq!(status, Some(42));
                assert_eq!(title.as_deref(), Some("t"));
                assert!(instance.is_none());
            }
            _ => panic!("the long shape must match"),
        },
        _ => panic!("a decodable body must yield the structured error"),
    }
}

#[test]
fn message_list() {
    let error = decode_error_body("[{\"error_message\": \"a\"}, {\"error_message\": \"b\"}]");

    match error {
        Error::Api(Response::Messages(messages)) => {
            assert_eq!(messages.len(), 2);
            match &messages[0] {
                Message::Long { message, .. } => assert_eq!(message, "a"),
                _ => panic!("a lone message member takes the long shape"),
            }
            match &messages[1] {
                Message::Long { message, .. } => assert_eq!(message, "b"),
                _ => panic!("a lone message member takes the long shape"),
            }
        }
        _ => panic!("a list body must yield the message list"),
    }
}

#[test]
fn empty_message_list() {
    let error = decode_error_body("[]");

    match error {
        Error::Api(Response::Messages(messages)) => assert!(messages.is_empty()),
        _ => panic!("an empty list is still a decodable body"),
    }
}

#[test]
fn unrecognized_shape_is_a_json_error() {
    assert!(matches!(decode_error_body("{\"foo\": 1}"), Error::Json(_)));
}

#[test]
fn status_out_of_range_fails_the_shape() {
    assert!(matches!(
        decode_error_body("{\"message\": \"m\", \"status\": 300}"),
        Error::Json(_)
    ));
}

#[test]
fn malformed_error_body_is_a_json_error() {
    assert!(matches!(decode_error_body("not json"), Error::Json(_)));
}

#[test]
fn non_json_success_body_is_a_json_error() {
    assert!(matches!(Api::token_response(200, "not json"), Err(Error::Json(_))));
}

#[test]
fn token_reply_decodes_every_member() {
    let token = Api::token_response(
        200,
        "{\"access_token\": \"t1\", \"token_type\": \"Bearer\", \"scope\": \"payments\", \
         \"refresh_token\": \"r1\", \"expires_in\": 3600}",
    )
    .unwrap();

    assert_eq!(token.access_token, "t1");
    assert_eq!(token.token_type.as_deref(), Some("Bearer"));
    assert_eq!(token.scope.as_deref(), Some("payments"));
    assert_eq!(token.refresh_token.as_deref(), Some("r1"));
    assert_eq!(token.expires_in, Some(3600));
}

#[test]
fn token_reply_ignores_unknown_members() {
    let token = Api::token_response(200, "{\"access_token\": \"t2\", \"extra\": [1, {}]}").unwrap();

    assert_eq!(token.access_token, "t2");
    assert!(token.refresh_token.is_none());
}

#[test]
fn token_reply_null_members_count_as_absent() {
    let token = Api::token_response(
        200,
        "{\"access_token\": \"t3\", \"refresh_token\": null, \"expires_in\": null}",
    )
    .unwrap();

    assert_eq!(token.access_token, "t3");
    assert!(token.refresh_token.is_none());
    assert!(token.expires_in.is_none());
}

#[test]
fn token_reply_without_a_token_is_a_json_error() {
    assert!(matches!(
        Api::token_response(200, "{\"token_type\": \"Bearer\"}"),
        Err(Error::Json(_))
    ));
}

#[test]
fn error_status_decodes_the_error_union() {
    match Api::token_response(401, "{\"error\": \"x\", \"error_description\": \"y\"}") {
        Err(Error::Api(Response::Message(m))) => {
            assert!(matches!(*m, Message::Short { .. }));
        }
        _ => panic!("a non-success status must yield the structured error"),
    }
}

#[test]
fn success_body_passes_through() {
    let body = Api::finish(200, "[\"anything\"]".to_owned()).unwrap();
    assert_eq!(body, "[\"anything\"]");

    assert!(Api::finish_empty(204, "").is_ok());

    match Api::finish(404, "{\"error\": \"x\", \"error_description\": \"y\"}".to_owned()) {
        Err(Error::Api(_)) => {}
        _ => panic!("a non-success status must yield the structured error"),
    }
}
