use registry_core::apierror::{
    error_backend_failure, error_conflict, error_forbidden, error_invalid_request,
    error_not_found, error_unauthorized, push_decimal, specialize, ApiError, SourceError,
    ToErrorCode, UnApiError,
};
use registry_core::response::{
    error_response, response, response_error, response_error_http, response_ok, ResponseError,
};

fn chain(messages: &[&str]) -> SourceError {
    SourceError::new(messages.iter().map(|m| m.to_string()).collect())
}

#[test]
fn new_error_has_no_cause() {
    let error = ApiError::new(418, "teapot", Some("short and stout".to_string()));
    assert_eq!(error.http, 418);
    assert_eq!(error.message, "teapot");
    assert_eq!(error.details.as_deref(), Some("short and stout"));
    assert!(error.source.is_none());
    assert!(error.backtrace.is_some());
}

#[test]
fn error_classes() {
    let cases = [
        (error_backend_failure(), 500, "The operation failed in the backend."),
        (error_invalid_request(), 400, "The request could not be understood by the server."),
        (error_unauthorized(), 401, "User is not authenticated."),
        (error_forbidden(), 403, "This action is forbidden to the user."),
        (error_not_found(), 404, "The requested resource cannot be found."),
        (
            error_conflict(),
            409,
            "The request could not be processed because of conflict in the current state of the resource.",
        ),
    ];
    for (error, http, message) in cases {
        assert_eq!(error.http, http);
        assert_eq!(error.message, message);
        assert!(error.details.is_none());
        assert!(error.source.is_none());
    }
}

#[test]
fn specialize_replaces_the_detail_only() {
    let first = specialize(error_forbidden(), "one".to_string());
    assert_eq!(first.http, 403);
    assert_eq!(first.message, "This action is forbidden to the user.");
    assert_eq!(first.details.as_deref(), Some("one"));
    let second = specialize(first, "two".to_string());
    assert_eq!(second.http, 403);
    assert_eq!(second.message, "This action is forbidden to the user.");
    assert_eq!(second.details.as_deref(), Some("two"));
}

#[test]
fn specialize_keeps_the_cause() {
    let error = specialize(ApiError::from(chain(&["disk full"])), "while saving".to_string());
    assert_eq!(error.http, 500);
    assert_eq!(error.details.as_deref(), Some("while saving"));
    assert_eq!(error.source.expect("kept").causes, vec!["disk full".to_string()]);
}

#[test]
fn error_from_a_lower_layer_is_an_internal_fault() {
    let error = ApiError::from(chain(&["outer", "inner"]));
    assert_eq!(error.http, 500);
    assert_eq!(error.message, "The operation failed in the backend.");
    assert!(error.details.is_none());
    assert!(error.backtrace.is_some());
    assert_eq!(
        error.source.expect("the chain is kept").causes,
        vec!["outer".to_string(), "inner".to_string()]
    );
}

#[test]
fn rendering_without_a_cause() {
    assert_eq!(ApiError::new(400, "bad", None).to_string(), "bad ()");
    assert_eq!(ApiError::new(400, "bad", Some("why".to_string())).to_string(), "bad (why)");
    assert_eq!(ApiError::new(400, "", Some(String::new())).to_string(), " ()");
}

#[test]
fn rendering_with_a_chain() {
    let error = ApiError::from(chain(&["outer", "inner"]));
    assert_eq!(
        error.to_string(),
        "The operation failed in the backend. ()\n\t [0] outer\n\t [1] inner\n"
    );
    let empty = ApiError::from(chain(&[]));
    assert_eq!(empty.to_string(), "The operation failed in the backend. ()\n");
}

#[test]
fn rendering_counts_in_decimal() {
    let messages: Vec<String> = (0..12).map(|i| format!("m{i}")).collect();
    let error = ApiError::from(SourceError::new(messages));
    let text = error.to_string();
    assert!(text.contains("\t [9] m9\n\t [10] m10\n\t [11] m11\n"));
}

#[test]
fn decimal_digits() {
    for (n, expected) in [(0usize, "0"), (7, "7"), (10, "10"), (99, "99"), (100, "100"), (65535, "65535")] {
        let mut out = String::from(">");
        push_decimal(&mut out, n);
        assert_eq!(out, format!(">{expected}"));
    }
    let mut out = String::new();
    push_decimal(&mut out, usize::MAX);
    assert_eq!(out, format!("{}", usize::MAX));
}

#[test]
fn clone_drops_the_diagnostics() {
    let error = specialize(ApiError::from(chain(&["cause"])), "detail".to_string());
    let copy = error.clone();
    assert_eq!(copy.http, error.http);
    assert_eq!(copy.message, error.message);
    assert_eq!(copy.details, error.details);
    assert!(copy.source.is_none());
    assert!(copy.backtrace.is_none());
    assert!(error.source.is_some());
}

#[test]
fn un_api_error_keeps_the_texts() {
    let error = UnApiError::from(ApiError::new(404, "gone", Some("for good".to_string())));
    assert_eq!(error.message, "gone");
    assert_eq!(error.details.as_deref(), Some("for good"));
    assert_eq!(error.to_string(), "UnApiError : gone\n\t for good\n");
    let plain = UnApiError::from(ApiError::new(404, "gone", None));
    assert_eq!(plain.to_string(), "UnApiError : gone\n");
}

struct Teapot;

impl ToErrorCode for Teapot {
    fn error_code(&self) -> u16 {
        418
    }
}

#[test]
fn error_codes_can_be_given_by_users() {
    assert_eq!(Teapot.error_code(), 418);
}

#[test]
fn ok_response() {
    assert_eq!(response_ok("data"), (200, "data"));
    let mapped = response(Ok::<u8, ApiError>(7)).expect("a value is answered with OK");
    assert_eq!(mapped, (200, 7));
}

#[test]
fn error_response_shows_message_and_detail() {
    let error = specialize(error_not_found(), "no such crate".to_string());
    let answer = response_error(error);
    assert_eq!(answer.status, 404);
    assert_eq!(answer.body.message, "The requested resource cannot be found.");
    assert_eq!(answer.body.details.as_deref(), Some("no such crate"));
    assert!(answer.to_log.is_none());
}

#[test]
fn internal_faults_are_handed_back_for_the_log() {
    let answer = response_error(ApiError::from(chain(&["db down"])));
    assert_eq!(answer.status, 500);
    assert_eq!(answer.body.message, "The operation failed in the backend.");
    let logged = answer.to_log.expect("an internal fault is logged");
    assert_eq!(logged.source.expect("with its chain").causes, vec!["db down".to_string()]);
}

#[test]
fn status_can_differ_from_the_error() {
    let answer = response_error_http(500, error_forbidden());
    assert_eq!(answer.status, 500);
    assert_eq!(answer.body.message, "This action is forbidden to the user.");
    assert!(answer.to_log.is_some());
    let answer = response_error_http(403, error_backend_failure());
    assert!(answer.to_log.is_none());
}

#[test]
fn error_responses_get_fresh_identifiers() {
    let first = response_error(error_forbidden());
    let second = response_error(error_forbidden());
    assert_ne!(first.body.uuid, second.body.uuid);
    assert_eq!(first.body.uuid.get_version_num(), 4);
}

#[test]
fn error_response_under_a_given_identifier() {
    let id = uuid::Uuid::from_u128(0x1234);
    let answer = error_response(409, error_conflict(), id);
    assert_eq!(answer.status, 409);
    assert_eq!(answer.body.uuid, id);
    let body = ResponseError::new(id, "m".to_string(), None);
    assert_eq!(body.uuid, id);
    assert_eq!(body.message, "m");
    let failed = response(Err::<u8, ApiError>(error_unauthorized())).expect_err("an error");
    assert_eq!(failed.status, 401);
}
