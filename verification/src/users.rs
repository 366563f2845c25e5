//! Users: how profile lookups are answered.

use crate::error::ApiError;
use crate::models::User;
use vstd::prelude::*;

verus! {

/// Answers a request for the caller's own profile. The caller holds a valid
/// token, so a missing record is a fault of the service, not of the request.
pub fn me(found: Option<User>) -> (r: Result<User, ApiError>)
    ensures
        r == match found {
            Some(user) => Ok::<User, ApiError>(user),
            None => Err::<User, ApiError>(ApiError::Internal),
        },
{
    match found {
        Some(user) => Ok(user),
        None => Err(ApiError::Internal),
    }
}

/// Answers a lookup by key: the user, or not found.
pub fn get_user(found: Option<User>) -> (r: Result<User, ApiError>)
    ensures
        r == match found {
            Some(user) => Ok::<User, ApiError>(user),
            None => Err::<User, ApiError>(ApiError::NotFound),
        },
{
    match found {
        Some(user) => Ok(user),
        None => Err(ApiError::NotFound),
    }
}

} // verus!
