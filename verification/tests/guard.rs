use task_manager_api::errors::ApiError;
use task_manager_api::utils::{authorize, validate_user_id};

#[test]
fn test_validate_user_id() {
    // Test valid user ID
    let user_id = 1;
    assert_eq!(validate_user_id(user_id), true);

    // Test invalid user ID
    let user_id = -1;
    assert_eq!(validate_user_id(user_id), false);
}

#[test]
fn zero_is_refused() {
    assert_eq!(validate_user_id(0), false);
}

#[test]
fn every_positive_id_passes() {
    for user_id in [1, 2, 3, 17, 1000, i32::MAX - 1, i32::MAX] {
        assert!(validate_user_id(user_id), "{} should pass", user_id);
    }
}

#[test]
fn no_id_up_to_zero_passes() {
    for user_id in [0, -1, -2, -1000, i32::MIN + 1, i32::MIN] {
        assert!(!validate_user_id(user_id), "{} should be refused", user_id);
    }
}

#[test]
fn a_refused_id_is_forbidden() {
    assert_eq!(authorize(1), Ok(()));
    assert_eq!(authorize(i32::MAX), Ok(()));
    assert_eq!(authorize(0), Err(ApiError::Forbidden));
    assert_eq!(authorize(-1), Err(ApiError::Forbidden));
    assert_eq!(authorize(i32::MIN), Err(ApiError::Forbidden));
}
