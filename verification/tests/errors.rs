use admin_api::error::ApiError;
use admin_api::outcome::GatewayResult;

#[test]
fn status_codes_follow_the_taxonomy() {
    assert_eq!(ApiError::AuthenticationError.status_code(), 403);
    assert_eq!(ApiError::InvalidUsername.status_code(), 400);
    assert_eq!(ApiError::CommandError("x".to_string()).status_code(), 500);
    assert_eq!(ApiError::Internal("x".to_string()).status_code(), 500);
}

#[test]
fn messages_follow_the_taxonomy() {
    assert_eq!(
        ApiError::AuthenticationError.message(),
        "Authentication failed"
    );
    assert_eq!(
        ApiError::InvalidUsername.message(),
        "Invalid username format"
    );
    assert_eq!(
        ApiError::CommandError("exit 1".to_string()).message(),
        "Command execution failed: exit 1"
    );
    assert_eq!(
        ApiError::Internal("missing binary".to_string()).message(),
        "Internal server error: missing binary"
    );
}

#[test]
fn every_failing_result_maps_to_one_error() {
    assert_eq!(
        ApiError::from_result(GatewayResult::AuthFailed),
        Some(ApiError::AuthenticationError)
    );
    assert_eq!(
        ApiError::from_result(GatewayResult::InvalidIdentifier),
        Some(ApiError::InvalidUsername)
    );
    assert_eq!(
        ApiError::from_result(GatewayResult::CommandFailed {
            detail: "user exists".to_string()
        }),
        Some(ApiError::CommandError("user exists".to_string()))
    );
    assert_eq!(
        ApiError::from_result(GatewayResult::LaunchFailed {
            detail: "denied".to_string()
        }),
        Some(ApiError::Internal("denied".to_string()))
    );
}

#[test]
fn success_maps_to_no_error() {
    assert_eq!(
        ApiError::from_result(GatewayResult::Success {
            message: "Mailbox jane created successfully".to_string()
        }),
        None
    );
}
