// The error taxonomy's status mapping and the uniform response envelope.

use shorturl::errors::AppError;
use shorturl::response::ApiResponse;

#[test]
fn error_status_classes() {
    assert_eq!(AppError::ValidationError(String::from("bad")).status(), 400);
    assert_eq!(AppError::NotFound(String::from("missing")).status(), 404);
    assert_eq!(AppError::InvalidCredentials.status(), 401);
    assert_eq!(AppError::InvalidToken.status(), 401);
    assert_eq!(AppError::TokenCreation.status(), 500);
    assert_eq!(AppError::StorageConflict.status(), 409);
    assert_eq!(AppError::StorageFailure.status(), 500);
    assert_eq!(AppError::InternalError.status(), 500);
}

#[test]
fn envelope_wraps_success_and_failure() {
    let ok: ApiResponse<String> = ApiResponse::success(200, String::from("made"));
    assert_eq!(ok.status, 200);
    assert_eq!(ok.data, Some(String::from("made")));

    let err: ApiResponse<String> = ApiResponse::failure(404, String::from("missing"));
    assert_eq!(err.status, 404);
    assert_eq!(err.data, Some(String::from("missing")));
}
