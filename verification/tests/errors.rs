use tesla::error::{
    error_from_response, status_is_redirection, status_is_success, AppError, TeslaError,
};

#[test]
fn unauthorized_with_marker_is_invalid_token() {
    let e = error_from_response(401, Some("Bearer error=\"invalid_token\""));
    assert_eq!(e, TeslaError::InvalidTokenError);
}

#[test]
fn unauthorized_without_marker_is_unspecified() {
    let unspecified =
        TeslaError::ParseAppError(AppError { message: "Unspecified error".to_string() });
    assert_eq!(error_from_response(401, Some("Basic realm=x")), unspecified);
    assert_eq!(error_from_response(401, Some("")), unspecified);
    assert_eq!(error_from_response(401, None), unspecified);
}

#[test]
fn marker_counts_only_when_unauthorized() {
    assert_eq!(error_from_response(404, Some("invalid_token")), TeslaError::NotFoundError);
    assert_eq!(
        error_from_response(500, Some("invalid_token")),
        TeslaError::ParseAppError(AppError { message: "Unspecified error".to_string() })
    );
}

#[test]
fn not_found_and_timeout() {
    assert_eq!(error_from_response(404, None), TeslaError::NotFoundError);
    assert_eq!(
        error_from_response(408, None),
        TeslaError::TransportError("Connect Timeout (408)".to_string())
    );
}

#[test]
fn status_classes() {
    assert!(status_is_success(200));
    assert!(status_is_success(299));
    assert!(!status_is_success(199));
    assert!(!status_is_success(300));
    assert!(status_is_redirection(300));
    assert!(status_is_redirection(302));
    assert!(status_is_redirection(399));
    assert!(!status_is_redirection(400));
    assert!(!status_is_redirection(299));
}
