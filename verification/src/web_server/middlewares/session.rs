//! Session authentication: protected routes admit a request only with a
//! bearer token that verifies and names a user.
use vstd::prelude::*;

use crate::compute::authorization::{
    authenticate, authenticated_as, bearer_token, header_bearer, token_names,
};
use crate::utils::clock::utc_clock_reading;
use crate::utils::jwt::{checked_as, checked_at};
use crate::errors::{ApiError, ApiErrorView};
use crate::models::session::{AuthUser, JwtClaims};

verus! {

/// The session middleware's decision.
pub struct SessionMiddleware;

impl SessionMiddleware {
    /// Decides on a request from the value of its `Authorization` header:
    /// without a bearer token it is refused; with one, the token is
    /// authenticated under `jwt_secret`.
    pub fn authorize_request(authorization: Option<&str>, jwt_secret: &str) -> (r: Result<
        AuthUser,
        ApiError,
    >)
        ensures
            header_bearer(authorization) is None ==> (r matches Err(e) && e@
                == ApiErrorView::Unauthorized("missing or invalid authorization header"@)),
            header_bearer(authorization) matches Some(t) ==> exists|decoded: Option<JwtClaims>|
                #[trigger] authenticated_as(r, decoded) && checked_as(t, jwt_secret@, decoded),
            header_bearer(authorization) matches Some(t) ==> exists|
                reading: (i64, u32, String),
                decoded: Option<JwtClaims>,
            |
                #![trigger utc_clock_reading(reading), authenticated_as(r, decoded)]
                utc_clock_reading(reading) && checked_at(t, jwt_secret@, reading.0 as int, decoded)
                    && authenticated_as(r, decoded),
            r matches Ok(u) ==> (header_bearer(authorization) matches Some(t) && token_names(
                t,
                jwt_secret@,
                u,
            )),
    {
        let token = match authorization {
            Some(h) => bearer_token(h),
            None => None,
        };
        match token {
            None => Err(
                ApiError::Unauthorized("missing or invalid authorization header".to_string()),
            ),
            Some(t) => authenticate(t.as_str(), jwt_secret),
        }
    }
}

} // verus!
