//! The registration of users with the database.

use vstd::prelude::*;

use crate::clock::utc_now;
use crate::error::{
    database_presence, outcome_view, require_database, validation_error, ApiError, ApiErrorView,
    ApiResult,
};
use crate::ids::{fresh_id, is_random_uuid};
use crate::text::{blank, is_blank};
use crate::types::{CreateUserRequest, Timestamp, UserProfile, UserProfileView};

verus! {

/// What a registration comes to before the profile is kept: there has to be a database, an email
/// and a region.
pub open spec fn registration(
    db_configured: bool,
    request: CreateUserRequest,
    id: u128,
    now: Timestamp,
) -> Result<UserProfileView, ApiErrorView> {
    if let Err(error) = database_presence(db_configured) {
        Err(error)
    } else if blank(request.email@) {
        Err(validation_error("email is required"@))
    } else if blank(request.region@) {
        Err(validation_error("region is required"@))
    } else {
        Ok(request.profile(id, now))
    }
}

/// The profile that the database is to keep for a registration, under an identifier.
pub fn register_user_as(
    db_configured: bool,
    payload: CreateUserRequest,
    id: u128,
    now: Timestamp,
) -> (r: ApiResult<UserProfile>)
    ensures
        outcome_view(r) == registration(db_configured, payload, id, now),
{
    if let Err(error) = require_database(db_configured) {
        return Err(error);
    }
    if is_blank(payload.email.as_str()) {
        return Err(ApiError::validation("email is required"));
    }
    if is_blank(payload.region.as_str()) {
        return Err(ApiError::validation("region is required"));
    }
    Ok(payload.into_profile(id, now))
}

/// The profile that the database is to keep for a registration.
pub fn register_user(db_configured: bool, payload: CreateUserRequest) -> (r: ApiResult<UserProfile>)
    ensures
        match r {
            Ok(profile) => {
                &&& is_random_uuid(profile.id)
                &&& registration(db_configured, payload, profile.id, profile.created_at) == Ok::<
                    UserProfileView,
                    ApiErrorView,
                >(profile@)
            },
            Err(error) => forall|id: u128, now: Timestamp| #[trigger]
                registration(db_configured, payload, id, now) == Err::<
                    UserProfileView,
                    ApiErrorView,
                >(error@),
        },
{
    let id: u128 = fresh_id();
    let now: Timestamp = utc_now();
    register_user_as(db_configured, payload, id, now)
}

} // verus!
