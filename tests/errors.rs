use conduit_wasm::types::{field_messages, status_error, Error};

#[test]
fn status_codes_map_to_failures() {
    assert!(matches!(status_error(401, vec![]), Error::Unauthorized));
    match status_error(422, vec!["email is invalid".to_string()]) {
        Error::UnprocessableEntity(m) => assert_eq!(m, vec!["email is invalid".to_string()]),
        _ => panic!("expected a rejection"),
    }
    assert!(matches!(status_error(500, vec![]), Error::InternalServerError));
    assert!(matches!(status_error(503, vec![]), Error::InternalServerError));
    assert!(matches!(status_error(404, vec![]), Error::RequestError));
    assert!(matches!(status_error(600, vec![]), Error::RequestError));
}

#[test]
fn messages_of_each_failure() {
    assert_eq!(Error::RequestError.messages(), vec!["Request error".to_string()]);
    assert_eq!(Error::DeserializeError.messages(), vec!["Invalid response".to_string()]);
    assert_eq!(Error::Unauthorized.messages(), vec!["Unauthorized".to_string()]);
    assert_eq!(Error::InternalServerError.messages(), vec!["Internal server error".to_string()]);
    let lines = vec!["email can't be blank".to_string(), "password is too short".to_string()];
    assert_eq!(Error::UnprocessableEntity(lines.clone()).messages(), lines);
    assert!(Error::UnprocessableEntity(vec![]).messages().is_empty());
}

#[test]
fn field_messages_prefix_field() {
    let lines = field_messages(
        &"email or password".to_string(),
        &vec!["is invalid".to_string(), "is blank".to_string()],
    );
    assert_eq!(lines, vec!["email or password is invalid".to_string(), "email or password is blank".to_string()]);
    assert!(field_messages(&"email".to_string(), &vec![]).is_empty());
}
