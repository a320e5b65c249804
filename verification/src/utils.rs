//! The ownership guard.

use vstd::prelude::*;
use crate::errors::ApiError;

verus! {

/// The guard's policy: a path user id may proceed exactly when it is positive.
///
/// Known defect: the policy looks at the path id alone. It never compares the
/// id with the identity that a verified credential carries, so a caller that
/// passes the guard for its own id passes it for every other positive id too.
pub open spec fn is_authorized(path_user_id: int) -> bool {
    path_user_id > 0
}

/// Decides whether the user id taken from a request path may reach the store.
pub fn validate_user_id(user_id: i32) -> (allowed: bool)
    ensures
        allowed == is_authorized(user_id as int),
        user_id > 0 ==> allowed,
        user_id <= 0 ==> !allowed,
{
    user_id > 0
}

/// Lets the guard judge the user id of a request path: `Forbidden` where it
/// refuses the id, and nothing to report where it lets the id pass.
pub fn authorize(user_id: i32) -> (decision: Result<(), ApiError>)
    ensures
        decision == if is_authorized(user_id as int) {
            Ok::<(), ApiError>(())
        } else {
            Err(ApiError::Forbidden)
        },
{
    if validate_user_id(user_id) {
        Ok(())
    } else {
        Err(ApiError::Forbidden)
    }
}

} // verus!
