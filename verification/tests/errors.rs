use session_gateway::errors::{
    AuthError, ErrorResponse, ProxyError, ServerError, StoreError, UpstreamFault, BAD_REQUEST,
    INTERNAL_SERVER_ERROR, UNAUTHORIZED,
};
use session_gateway::index::health;
use session_gateway::s3::{get_object, get_request, list_objects, GetRequest, Listing};

#[test]
fn status_codes_are_the_usual_ones() {
    assert_eq!(BAD_REQUEST, 400);
    assert_eq!(UNAUTHORIZED, 401);
    assert_eq!(INTERNAL_SERVER_ERROR, 500);
}

#[test]
fn unauthorized_leaves_as_401() {
    let error = ServerError::from_auth(AuthError::Unauthorized);
    assert_eq!(error, ServerError::LoginError { code: 401, message: "Not logged in".to_string() });
    assert_eq!(
        error.error_response(),
        ErrorResponse { status: 401, message: "Not logged in".to_string() }
    );
}

#[test]
fn service_unavailable_leaves_as_500() {
    let error = ServerError::from_auth(AuthError::ServiceUnavailable);
    assert_eq!(
        error,
        ServerError::LoginError {
            code: 500,
            message: "Failed to connect to LDAP server".to_string(),
        }
    );
    assert_eq!(error.status(), 500);
    assert_eq!(error.message(), "Failed to connect to LDAP server");
}

#[test]
fn bad_request_leaves_as_400() {
    let error = ServerError::from_proxy(get_request("bucket", None).unwrap_err());
    assert_eq!(error, ServerError::BadRequest { message: "No file path".to_string() });
    assert_eq!(
        error.error_response(),
        ErrorResponse { status: 400, message: "Bad request: No file path".to_string() }
    );
}

#[test]
fn listing_faults_leave_as_list_errors() {
    let error = ServerError::from_proxy(list_objects(Ok(Listing { contents: None })).unwrap_err());
    assert_eq!(error, ServerError::ListObjectsError { message: "No contents".to_string() });
    assert_eq!(
        error.error_response(),
        ErrorResponse {
            status: 500,
            message: "Failed to retrieve objects list: No contents".to_string(),
        }
    );
    let error = ServerError::from_proxy(ProxyError::UpstreamFailure(UpstreamFault::ListingFailed));
    assert_eq!(
        error,
        ServerError::ListObjectsError { message: "Object store request failed".to_string() }
    );
    let error = ServerError::from_proxy(ProxyError::UpstreamFailure(UpstreamFault::NoKey));
    assert_eq!(error, ServerError::ListObjectsError { message: "No key".to_string() });
}

#[test]
fn fetch_faults_leave_as_get_errors() {
    let error = ServerError::from_proxy(ProxyError::UpstreamFailure(UpstreamFault::NoContentType));
    assert_eq!(error, ServerError::GetObjectError { message: "No content type".to_string() });
    assert_eq!(error.status(), 500);
    assert_eq!(error.message(), "Failed to get object: No content type");
    let error = ServerError::from_proxy(ProxyError::UpstreamFailure(UpstreamFault::BodyUnreadable));
    assert_eq!(error, ServerError::GetObjectError { message: "Unreadable body".to_string() });
}

#[test]
fn store_error_does_not_reach_the_response() {
    let request = GetRequest { bucket: "bucket".to_string(), key: "missing.txt".to_string() };
    let failure = get_object(&request, Err(StoreError)).unwrap_err();
    assert_eq!(failure, ProxyError::UpstreamFailure(UpstreamFault::FetchFailed));
    let response = ServerError::from_proxy(failure).error_response();
    assert_eq!(
        response,
        ErrorResponse {
            status: 500,
            message: "Failed to get object: Object store request failed".to_string(),
        }
    );
    assert!(!response.message.contains("missing.txt"));
}

#[test]
fn every_fault_has_its_reason() {
    assert_eq!(UpstreamFault::ListingFailed.reason(), "Object store request failed");
    assert_eq!(UpstreamFault::NoContents.reason(), "No contents");
    assert_eq!(UpstreamFault::NoKey.reason(), "No key");
    assert_eq!(UpstreamFault::FetchFailed.reason(), "Object store request failed");
    assert_eq!(UpstreamFault::BodyUnreadable.reason(), "Unreadable body");
    assert_eq!(UpstreamFault::NoContentType.reason(), "No content type");
}

#[test]
fn health_is_ok_where_the_store_answers() {
    assert_eq!(health(Some(Ok(()))), Ok("OK".to_string()));
}

#[test]
fn health_reports_a_failing_store() {
    let error = health(Some(Err(StoreError))).unwrap_err();
    assert_eq!(
        error,
        ServerError::HealthCheckError { errors: vec!["S3 client is not healthy".to_string()] }
    );
    assert_eq!(error.status(), 500);
    assert_eq!(
        error.message(),
        "Failed the health check with the following errors: [\"S3 client is not healthy\"]"
    );
}

#[test]
fn health_reports_a_missing_client() {
    let error = health(None).unwrap_err();
    assert_eq!(
        error,
        ServerError::HealthCheckError { errors: vec!["S3 client not initialized".to_string()] }
    );
}

#[test]
fn health_message_lists_every_error() {
    let error = ServerError::HealthCheckError {
        errors: vec!["a \"quoted\" one".to_string(), "two".to_string()],
    };
    assert_eq!(
        error.message(),
        "Failed the health check with the following errors: [\"a \\\"quoted\\\" one\", \"two\"]"
    );
    let none = ServerError::HealthCheckError { errors: Vec::new() };
    assert_eq!(none.message(), "Failed the health check with the following errors: []");
}
