use rsm::error::Error;
use rsm::reply::{outcome, read_body, read_response, reports_error, Exchange, Outcome, Response};

#[test]
fn a_request_that_was_not_sent_failed_to_connect() {
    assert_eq!(read_response(&Exchange::Unsent).unwrap_err(), Error::FailedToConnectToServer);
}

#[test]
fn a_body_that_was_not_read_is_an_invalid_response() {
    assert_eq!(read_response(&Exchange::Unread).unwrap_err(), Error::InvalidServerResponse);
}

#[test]
fn a_body_without_error_is_a_success_kept_as_it_came() {
    let body = "{\"res\": \"table created\"}";
    match read_response(&Exchange::Body(body.to_string())).unwrap() {
        Response::Success(kept) => assert_eq!(kept, body),
        Response::Failure(_) => panic!("taken for a failure"),
    }
}

#[test]
fn a_body_with_error_is_a_failure_with_its_account() {
    let body = "{\"error\": {\"req_uuid\": \"1234-abcd\", \"type\": \"TABLE_NOT_FOUND\"}}";
    match read_body(body).unwrap() {
        Response::Failure(detail) => {
            assert_eq!(detail.req_uuid, "1234-abcd");
            assert_eq!(detail.error_type, "TABLE_NOT_FOUND");
        },
        Response::Success(_) => panic!("taken for a success"),
    }
}

#[test]
fn a_body_that_is_not_the_json_expected_cannot_be_read() {
    for body in [
        "",
        "plain text",
        "[1, 2]",
        "\"ok\"",
        "{\"res\": ",
        "error",
        "{\"error\": \"no\"}",
        "{\"error\": {\"req_uuid\": \"1\"}}",
        "{\"error\": {\"req_uuid\": \"1\", \"type\": 5}}",
        "{\"error\": {\"req_uuid\": null, \"type\": \"T\"}}",
        "{\"res\": \"an error occurred\"}",
    ] {
        assert_eq!(read_body(body).unwrap_err(), Error::FailedtoReadServerResponse, "{body}");
    }
}

#[test]
fn the_text_error_anywhere_marks_a_failure() {
    assert!(reports_error("{\"error\":{}}"));
    assert!(reports_error("{\"res\":\"no errors\"}"));
    assert!(!reports_error("{\"res\":\"fine\"}"));
    assert!(!reports_error("{\"Error\":{}}"));
    assert!(!reports_error(""));
}

#[test]
fn an_outcome_is_what_the_next_step_depends_on() {
    assert_eq!(outcome(&read_body("{\"res\":\"ok\"}")), Outcome::Accepted);
    assert_eq!(
        outcome(&read_body("{\"error\":{\"req_uuid\":\"1\",\"type\":\"T\"}}")),
        Outcome::Refused
    );
    assert_eq!(
        outcome(&read_body("nonsense")),
        Outcome::Failed(Error::FailedtoReadServerResponse)
    );
    assert_eq!(
        outcome(&read_response(&Exchange::Unsent)),
        Outcome::Failed(Error::FailedToConnectToServer)
    );
}
