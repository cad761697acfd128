//! Signing in through the login form.
use vstd::prelude::*;

use crate::result::AppError;
use crate::services::users::{UserCredentials, INVALID_CREDENTIALS};

verus! {

/// The fields of the login form.
#[derive(Clone, Debug)]
pub struct LoginFormData {
    pub email: String,
    pub password: String,
}

/// The tenant that the login form signs in to.
pub const LOGIN_TENANT: i32 = 1;

/// The key under which a refused sign-in leaves its flash error and the email typed.
pub const LOGIN_FLASH_KEY: &'static str = "email";

impl LoginFormData {
    /// The credentials that the form signs in with, in the login tenant.
    pub fn credentials(&self) -> (c: UserCredentials)
        ensures
            c.tenant_id == 1,
            c.email@ == self.email@,
            c.password@ == self.password@,
    {
        UserCredentials {
            tenant_id: LOGIN_TENANT,
            email: self.email.clone(),
            password: self.password.clone(),
        }
    }
}

/// What a failed sign-in through the form leads to.
#[derive(Debug)]
pub enum LoginFailure {
    /// The error page for a server error.
    Fail(AppError),
    /// Back to the login page, with the flash error `error` and the flash datum `email`,
    /// both under `LOGIN_FLASH_KEY`.
    Retry { error: String, email: String },
}

/// What a failed sign-in leads to: a server error is shown, any other error sends the
/// user back to the form with a flash error and the email typed.
pub fn login_failure(err: AppError, form: &LoginFormData) -> (r: LoginFailure)
    ensures
        match r {
            LoginFailure::Fail(e) => err is ServerError && e == err,
            LoginFailure::Retry { error, email } => !(err is ServerError) && error@
                == "Invalid email or password"@ && email@ == form.email@,
        },
{
    match err {
        AppError::ServerError { .. } => LoginFailure::Fail(err),
        _ => LoginFailure::Retry {
            error: String::from_str(INVALID_CREDENTIALS),
            email: form.email.clone(),
        },
    }
}

} // verus!
