use app_catalog::errors::InternalServerError;

#[test]
fn error_body_keeps_message_and_date() {
    let error = InternalServerError::at("it failed", String::from("2024-03-01T10:00:00+00:00"));
    assert_eq!(
        error,
        InternalServerError {
            message: String::from("it failed"),
            date: String::from("2024-03-01T10:00:00+00:00"),
        }
    );
}

#[test]
fn new_error_body_is_dated_now() {
    let before = chrono::Utc::now();
    let error = InternalServerError::new("Error fetching applications");
    let after = chrono::Utc::now();
    assert_eq!(error.message, "Error fetching applications");
    let date = chrono::DateTime::parse_from_rfc3339(&error.date).unwrap();
    assert!(before <= date && date <= after);
    assert_eq!(date.offset().local_minus_utc(), 0);
}
