//! Validation of the login and 2FA verification requests.
use vstd::prelude::*;

use crate::errors::texts;

use crate::models::dtos::{LoginRequest, Verify2faRequest};
use crate::request_validations::common::{
    is_valid_email, is_valid_email_spec, problem_if, reports,
};
use crate::utils::text::{is_blank, is_blank_spec};

verus! {

/// The problems of a login request, in the order they are reported.
pub open spec fn login_problems(email: Seq<char>, password: Seq<char>) -> Seq<Seq<char>> {
    problem_if(!is_valid_email_spec(email), "email must be a valid email address"@) + problem_if(
        password.len() == 0,
        "password is required"@,
    )
}

/// The problems of a 2FA verification request, in the order they are reported.
pub open spec fn verify_2fa_problems(challenge_id: Seq<char>, code: Seq<char>) -> Seq<Seq<char>> {
    problem_if(is_blank_spec(challenge_id), "login_challenge_id is required"@) + problem_if(
        is_blank_spec(code),
        "code is required"@,
    )
}

/// Validates a login request, reporting every problem at once.
pub fn validate_login(req: &LoginRequest) -> (r: Result<(), Vec<String>>)
    ensures
        reports(r, login_problems(req.email@, req.password@)),
{
    let mut errors: Vec<String> = Vec::new();
    if !is_valid_email(req.email.as_str()) {
        errors.push("email must be a valid email address".to_string());
    }
    if req.password.as_str().is_empty() {
        errors.push("password is required".to_string());
    }
    assert(texts(errors@) =~= login_problems(req.email@, req.password@));
    finish(errors)
}

/// Validates a 2FA verification request, reporting every problem at once.
pub fn validate_verify_2fa(req: &Verify2faRequest) -> (r: Result<(), Vec<String>>)
    ensures
        reports(r, verify_2fa_problems(req.login_challenge_id@, req.code@)),
{
    let mut errors: Vec<String> = Vec::new();
    if is_blank(req.login_challenge_id.as_str()) {
        errors.push("login_challenge_id is required".to_string());
    }
    if is_blank(req.code.as_str()) {
        errors.push("code is required".to_string());
    }
    assert(texts(errors@) =~= verify_2fa_problems(req.login_challenge_id@, req.code@));
    finish(errors)
}

/// Success when nothing was collected, else the collected errors.
pub(crate) fn finish(errors: Vec<String>) -> (r: Result<(), Vec<String>>)
    ensures
        reports(r, crate::errors::texts(errors@)),
{
    if errors.len() == 0 {
        Ok(())
    } else {
        Err(errors)
    }
}

} // verus!
