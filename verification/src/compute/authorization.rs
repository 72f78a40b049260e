//! Authentication of bearer tokens and the admin role check.
use vstd::prelude::*;

use crate::errors::{ApiError, ApiErrorView};
use crate::models::object_id::{object_id_from_text, ObjectId};
use crate::models::session::{AuthUser, JwtClaims};
use crate::models::user::{role_from_name, UserRole};
use crate::utils::clock::utc_clock_reading;
use crate::utils::jwt::{
    checked_as, checked_at, claims_tuple, decode_access_token, hs256_claims, issued_for,
};
use crate::utils::text::chars_of;

verus! {

/// The token carried by an `Authorization` header value of the form
/// `Bearer <token>`.
pub open spec fn bearer_token_spec(header: Seq<char>) -> Option<Seq<char>> {
    if header.len() >= 7 && header.take(7) == "Bearer "@ {
        Some(header.skip(7))
    } else {
        None
    }
}

/// The bearer token of a request, given its `Authorization` header value.
pub open spec fn header_bearer(authorization: Option<&str>) -> Option<Seq<char>> {
    match authorization {
        Some(h) => bearer_token_spec(h@),
        None => None,
    }
}

/// The token of an `Authorization` header (`strip_prefix("Bearer ")`).
pub fn bearer_token(header: &str) -> (r: Option<String>)
    ensures
        match bearer_token_spec(header@) {
            Some(t) => r matches Some(s) && s@ == t,
            None => r is None,
        },
{
    proof {
        reveal_strlit("Bearer ");
    }
    let cs = chars_of(header);
    let prefix = chars_of("Bearer ");
    if cs.len() < prefix.len() {
        return None;
    }
    let mut i: usize = 0;
    while i < prefix.len()
        invariant
            cs@ == header@,
            prefix@ == "Bearer "@,
            prefix.len() == 7,
            prefix.len() <= cs.len(),
            i <= prefix.len(),
            forall|j: int| 0 <= j < i ==> cs@[j] == prefix@[j],
        decreases prefix.len() - i,
    {
        if cs[i] != prefix[i] {
            assert(header@.take(7)[i as int] != "Bearer "@[i as int]);
            return None;
        }
        i += 1;
    }
    assert(header@.take(7) =~= "Bearer "@);
    let mut token = String::new();
    let mut k: usize = prefix.len();
    while k < cs.len()
        invariant
            cs@ == header@,
            7 <= k <= cs.len(),
            prefix.len() == 7,
            token@ == header@.subrange(7, k as int),
        decreases cs.len() - k,
    {
        crate::utils::text::push_char(&mut token, cs[k]);
        assert(token@ =~= header@.subrange(7, k + 1));
        k += 1;
    }
    assert(token@ =~= header@.skip(7));
    Some(token)
}

/// What authenticating decoded claims gives: the caller they name, or the
/// reason they are refused.
pub open spec fn authentication_verdict(claims: Option<JwtClaims>) -> Result<
    (ObjectId, UserRole),
    ApiErrorView,
> {
    match claims {
        None => Err(ApiErrorView::Unauthorized("invalid access token"@)),
        Some(c) => match object_id_from_text(c.sub@) {
            None => Err(ApiErrorView::Unauthorized("invalid token subject"@)),
            Some(id) => match role_from_name(c.role@) {
                None => Err(ApiErrorView::Unauthorized("invalid token role"@)),
                Some(role) => Ok((id, role)),
            },
        },
    }
}

/// Builds the authenticated caller from the claims of a token, `None` when
/// the token did not decode and verify under the signing secret.
pub fn authenticate_claims(decoded: Option<JwtClaims>) -> (r: Result<AuthUser, ApiError>)
    ensures
        authenticated_as(r, decoded),
{
    let claims = match decoded {
        None => return Err(ApiError::Unauthorized("invalid access token".to_string())),
        Some(c) => c,
    };
    let id = match ObjectId::parse_str(claims.sub.as_str()) {
        None => return Err(ApiError::Unauthorized("invalid token subject".to_string())),
        Some(id) => id,
    };
    let role = match UserRole::from_str(claims.role.as_str()) {
        None => return Err(ApiError::Unauthorized("invalid token role".to_string())),
        Some(role) => role,
    };
    Ok(AuthUser { id, email: claims.email, role })
}

/// What `authenticate_claims` answers for `decoded`.
pub open spec fn authenticated_as(r: Result<AuthUser, ApiError>, decoded: Option<JwtClaims>) -> bool {
    match authentication_verdict(decoded) {
        Ok((id, role)) => r matches Ok(u) && u.id == id && u.role == role && u.email
            == decoded->0.email,
        Err(e) => r matches Err(err) && err@ == e,
    }
}

/// The caller that authenticating `token` under `secret` admits: the
/// token verifies under the secret (up to its expiry) and carries claims
/// whose subject is the caller's id, whose role name is the caller's role and
/// whose email is the caller's email.
pub open spec fn token_names(token: Seq<char>, secret: Seq<char>, u: AuthUser) -> bool {
    exists|c: JwtClaims|
        {
            &&& hs256_claims(token, secret) == Some(#[trigger] claims_tuple(c))
            &&& object_id_from_text(c.sub@) == Some(u.id)
            &&& role_from_name(c.role@) == Some(u.role)
            &&& u.email == c.email
        }
}

/// Validates an access token under `jwt_secret` and builds the
/// authenticated caller. The answer is that of `authenticate_claims` for
/// what checking the token gave; a token is accepted only when it verifies
/// under the secret and names a user id and a known role. Whether a token is
/// refused as expired rests on the clock.
pub fn authenticate(token: &str, jwt_secret: &str) -> (r: Result<AuthUser, ApiError>)
    ensures
        exists|decoded: Option<JwtClaims>|
            #[trigger] authenticated_as(r, decoded) && checked_as(token@, jwt_secret@, decoded),
        r matches Ok(u) ==> token_names(token@, jwt_secret@, u),
        exists|reading: (i64, u32, String), decoded: Option<JwtClaims>|
            #![trigger utc_clock_reading(reading), authenticated_as(r, decoded)]
            utc_clock_reading(reading) && checked_at(token@, jwt_secret@, reading.0 as int, decoded)
                && authenticated_as(r, decoded),
{
    let checked = decode_access_token(token, jwt_secret);
    let decoded = match checked {
        Ok(c) => Some(c),
        Err(_) => None,
    };
    let r = authenticate_claims(decoded);
    assert(authenticated_as(r, decoded) && checked_as(token@, jwt_secret@, decoded));
    proof {
        let reading = choose|reading: (i64, u32, String)|
            #[trigger] utc_clock_reading(reading) && checked_at(
                token@,
                jwt_secret@,
                reading.0 as int,
                decoded,
            );
        assert(utc_clock_reading(reading) && authenticated_as(r, decoded));
    }
    proof {
        if r is Ok {
            let c = decoded->0;
            assert(hs256_claims(token@, jwt_secret@) == Some(claims_tuple(c)));
        }
    }
    r
}

/// Rejects the request unless the caller is an admin.
pub fn require_admin(user: &AuthUser) -> (r: Result<(), ApiError>)
    ensures
        r is Ok <==> user.role == UserRole::Admin,
        r matches Err(e) ==> e@ == ApiErrorView::Forbidden,
{
    match user.role {
        UserRole::Admin => Ok(()),
        UserRole::Staff => Err(ApiError::Forbidden),
    }
}

/// A token issued for a user, once checking it under the signing secret
/// reads its claims back (it has not expired), authenticates exactly that
/// user: the same id, role and email.
pub proof fn law_issued_token_authenticates_its_user(
    issued: JwtClaims,
    user_id: ObjectId,
    email: Seq<char>,
    role: UserRole,
    token: Seq<char>,
    secret: Seq<char>,
    r: Result<AuthUser, ApiError>,
    decoded: Option<JwtClaims>,
)
    requires
        issued_for(issued, user_id, email, role),
        hs256_claims(token, secret) == Some(claims_tuple(issued)),
        authenticated_as(r, decoded),
        checked_as(token, secret, decoded),
        decoded is Some,
    ensures
        r matches Ok(u) && u.id == user_id && u.role == role && u.email@ == email,
{
    let d = decoded->0;
    assert(claims_tuple(d) == claims_tuple(issued));
    assert(d.sub@ == user_id.hex() && d.role@ == crate::models::user::role_name(role));
    crate::models::object_id::law_object_id_hex_round_trip(user_id);
    crate::models::user::law_role_name_round_trip(role);
}

/// A bearer token is accepted exactly when, at the current Unix second, its
/// signature verifies under the secret, its `exp` has not passed (with the
/// minute of leeway) and it names a user id and a known role; it then names
/// the caller.
pub proof fn law_unexpired_token_accepted(token: &str, jwt_secret: &str, r: Result<AuthUser, ApiError>)
    requires
        call_ensures(authenticate, (token, jwt_secret), r),
    ensures
        exists|reading: (i64, u32, String)|
            {
                &&& #[trigger] utc_clock_reading(reading)
                &&& hs256_claims(token@, jwt_secret@) matches Some(t) ==> (t.3
                    + crate::utils::jwt::TOKEN_EXPIRY_LEEWAY_SECS >= reading.0
                    && object_id_from_text(t.0) is Some && role_from_name(t.2) is Some ==> (r matches Ok(u)
                    && object_id_from_text(t.0) == Some(u.id) && role_from_name(t.2) == Some(u.role)
                    && u.email@ == t.1))
                &&& r is Ok ==> (hs256_claims(token@, jwt_secret@) matches Some(t) && t.3
                    + crate::utils::jwt::TOKEN_EXPIRY_LEEWAY_SECS >= reading.0)
            },
{
    let (reading, decoded) = choose|reading: (i64, u32, String), decoded: Option<JwtClaims>|
        #![trigger utc_clock_reading(reading), authenticated_as(r, decoded)]
        utc_clock_reading(reading) && checked_at(token@, jwt_secret@, reading.0 as int, decoded)
            && authenticated_as(r, decoded);
    assert(utc_clock_reading(reading));
}

} // verus!
