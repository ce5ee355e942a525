//! What is decided before an administrator acts on a user.

use vstd::prelude::*;
use crate::error::AppError;

verus! {

/// An administrator may change the role of, ban and delete every user but
/// itself.
pub fn forbid_self(target_user_id: i32, admin_id: i32) -> (r: Result<(), AppError>)
    ensures
        r == if target_user_id == admin_id {
            Err::<(), AppError>(AppError::PermissionDenied)
        } else {
            Ok::<(), AppError>(())
        },
{
    if target_user_id == admin_id {
        Err(AppError::PermissionDenied)
    } else {
        Ok(())
    }
}

} // verus!
