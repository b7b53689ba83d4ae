use limiting_factor::api::replies::{
    build_bad_request_response, build_internal_server_error_response, build_not_found_response,
    into_json_response, DatabaseErrorKind, Json, QueryError,
};

fn expect_failure(reply: Result<Json<u32>, (u16, String)>) -> (u16, String) {
    match reply {
        Err(failure) => failure,
        Ok(_) => panic!("expected a failure reply"),
    }
}

#[test]
fn test_ok_value_becomes_json() {
    let reply = into_json_response::<u32>(Ok(42));
    match reply {
        Ok(Json(value)) => assert_eq!(42, value),
        Err(_) => panic!("expected a JSON reply"),
    }
}

#[test]
fn test_not_found_maps_to_404() {
    let (status, message) = expect_failure(into_json_response(Err(QueryError::NotFound)));
    assert_eq!(404, status);
    assert_eq!("Not found", message);
}

#[test]
fn test_unique_violation_maps_to_409() {
    let error = QueryError::DatabaseError(
        DatabaseErrorKind::UniqueViolation,
        "duplicate key value violates unique constraint".to_string(),
    );
    let (status, message) = expect_failure(into_json_response(Err(error)));
    assert_eq!(409, status);
    assert_eq!("Unique constraint violation", message);
}

#[test]
fn test_foreign_key_violation_maps_to_400() {
    let error = QueryError::DatabaseError(
        DatabaseErrorKind::ForeignKeyViolation,
        "insert violates foreign key constraint".to_string(),
    );
    let (status, message) = expect_failure(into_json_response(Err(error)));
    assert_eq!(400, status);
    assert_eq!("Foreign key constraint violation", message);
}

#[test]
fn test_other_database_error_maps_to_500_without_detail() {
    let error = QueryError::DatabaseError(
        DatabaseErrorKind::Other,
        "relation does not exist".to_string(),
    );
    let (status, message) = expect_failure(into_json_response(Err(error)));
    assert_eq!(500, status);
    assert_eq!("Internal server error", message);
}

#[test]
fn test_other_error_maps_to_500_without_detail() {
    let error = QueryError::Other("connection pool timed out".to_string());
    let (status, message) = expect_failure(into_json_response(Err(error)));
    assert_eq!(500, status);
    assert_eq!("Internal server error", message);
}

#[test]
fn test_status_code_and_response_of_failure() {
    let error = QueryError::DatabaseError(DatabaseErrorKind::UniqueViolation, "dup".to_string());
    assert_eq!(409, error.status_code());
    assert_eq!("Unique constraint violation", error.response());
}

#[test]
fn test_build_not_found_response() {
    assert_eq!(404, build_not_found_response());
}

#[test]
fn test_build_bad_request_response() {
    assert_eq!(400, build_bad_request_response());
}

#[test]
fn test_build_internal_server_error_response() {
    assert_eq!(500, build_internal_server_error_response("backend detail"));
}
