//! Passwords: hashing them for storage, and checking credentials against a stored hash.
use vstd::prelude::*;

use argon2::password_hash::{rand_core::OsRng, SaltString};
use argon2::{Argon2, PasswordHash, PasswordHasher, PasswordVerifier};

use crate::result::AppError;

verus! {

/// The credentials that a user signs in with.
#[derive(Clone, Debug)]
pub struct UserCredentials {
    pub tenant_id: i32,
    pub email: String,
    pub password: String,
}

/// What checking `password` against the stored hash `stored` gives with Argon2's
/// default parameters: `Ok(true)` where they match, `Ok(false)` where they do not, and
/// the error's text where `stored` is no password hash in PHC form.
pub uninterp spec fn argon2_verify(password: Seq<char>, stored: Seq<char>) -> Result<bool, Seq<char>>;

/// Calls `PasswordHash::new` on `stored` and then `PasswordVerifier::verify_password` of
/// `Argon2::default()` on the password's bytes and that hash. The contract names the
/// outcome `argon2_verify` of the two texts: whether the password matches, or the text
/// of the error that `PasswordHash::new` returned.
#[verifier::external_body]
fn argon2_check(password: &str, stored: &str) -> (r: Result<bool, String>)
    ensures
        match r {
            Ok(b) => argon2_verify(password@, stored@) == Ok::<bool, Seq<char>>(b),
            Err(e) => argon2_verify(password@, stored@) == Err::<bool, Seq<char>>(e@),
        },
{
    match PasswordHash::new(stored) {
        Ok(hash) => Ok(Argon2::default().verify_password(password.as_bytes(), &hash).is_ok()),
        Err(e) => Err(e.to_string()),
    }
}

/// The longest password, in bytes, that Argon2 hashes.
pub const MAX_PASSWORD_BYTES: usize = 0xFFFF_FFFF;

/// The text of the error that hashing a longer password gives.
pub const PASSWORD_HASH_ERROR: &'static str = "invalid password";

/// Whether Argon2 hashes `password` with its default parameters: whether its UTF-8 form
/// is at most `MAX_PASSWORD_BYTES` long.
pub open spec fn password_hashable(password: Seq<char>) -> bool {
    vstd::utf8::encode_utf8(password).len() <= MAX_PASSWORD_BYTES
}

/// Calls `PasswordHasher::hash_password` of `Argon2::default()` on the password's bytes
/// with a salt from `SaltString::generate(&mut OsRng)`, and writes the hash in PHC form.
/// The salt is random, so the hash is not named. The contract states what the crate's
/// source shows of every outcome: with the default parameters and a generated salt, the
/// only error is a password longer than `MAX_PASSWORD_BYTES`, whose text is
/// `invalid password`; and a hash that was made checks as matching its password.
#[verifier::external_body]
fn argon2_hash(password: &str) -> (r: Result<String, String>)
    ensures
        match r {
            Ok(h) => password_hashable(password@) && argon2_verify(password@, h@) == Ok::<
                bool,
                Seq<char>,
            >(true),
            Err(e) => !password_hashable(password@) && e@ == PASSWORD_HASH_ERROR@,
        },
{
    let salt = SaltString::generate(&mut OsRng);
    match Argon2::default().hash_password(password.as_bytes(), &salt) {
        Ok(hash) => Ok(hash.to_string()),
        Err(e) => Err(e.to_string()),
    }
}

/// The text of a refused sign-in.
pub const INVALID_CREDENTIALS: &'static str = "Invalid email or password";

/// What a sign-in with `password` gives, where `stored` is the password hash of the user
/// found, if any: success, or the status code and text of the error.
pub open spec fn sign_in_result(stored: Option<Seq<char>>, password: Seq<char>) -> Result<
    (),
    (u16, Seq<char>),
> {
    match stored {
        None => Err((403, INVALID_CREDENTIALS@)),
        Some(h) => match argon2_verify(password, h) {
            Ok(true) => Ok(()),
            Ok(false) => Err((403, INVALID_CREDENTIALS@)),
            Err(t) => Err((500, t)),
        },
    }
}

/// The hash of a new password, to be stored in its place. Only a password longer than
/// Argon2 takes fails, with a `Forbidden` that carries the hashing error's text.
pub fn hash_password(password: &str) -> (r: Result<String, AppError>)
    ensures
        r is Ok <==> password_hashable(password@),
        match r {
            Ok(h) => argon2_verify(password@, h@) == Ok::<bool, Seq<char>>(true),
            Err(e) => e matches AppError::Forbidden { cause } && cause@ == PASSWORD_HASH_ERROR@,
        },
{
    match argon2_hash(password) {
        Ok(h) => Ok(h),
        Err(e) => Err(AppError::Forbidden { cause: e }),
    }
}

/// The hash of a changed password, where the password is changed.
pub fn hash_optional_password(password: Option<String>) -> (r: Result<Option<String>, AppError>)
    ensures
        match password {
            None => r matches Ok(n) && n is None,
            Some(p) => (r is Ok <==> password_hashable(p@)) && match r {
                Ok(Some(h)) => argon2_verify(p@, h@) == Ok::<bool, Seq<char>>(true),
                Ok(None) => false,
                Err(e) => e matches AppError::Forbidden { cause } && cause@
                    == PASSWORD_HASH_ERROR@,
            },
        },
{
    match password {
        None => Ok(None),
        Some(p) => match hash_password(p.as_str()) {
            Ok(h) => Ok(Some(h)),
            Err(e) => Err(e),
        },
    }
}

/// Refuses a new user whose email is taken in the tenant.
pub fn check_new_email(exists: bool, email: &str) -> (r: Result<(), AppError>)
    ensures
        match r {
            Ok(_) => !exists,
            Err(e) => exists && (e matches AppError::BadRequest { cause } && cause@
                == "User with email "@ + email@ + " already exists"@),
        },
{
    if exists {
        let mut cause = String::from_str("User with email ");
        cause.append(email);
        cause.append(" already exists");
        Err(AppError::BadRequest { cause })
    } else {
        Ok(())
    }
}

/// Checks a sign-in: `stored` is the password hash of the user found by email and
/// tenant, if any. No user, or a password that does not match, is `Forbidden`; a stored
/// hash that cannot be read is a `ServerError` with the reader's message.
pub fn check_credentials(stored: Option<&str>, password: &str) -> (r: Result<(), AppError>)
    ensures
        match r {
            Ok(_) => sign_in_result(
                match stored {
                    Some(h) => Some(h@),
                    None => None,
                },
                password@,
            ) == Ok::<(), (u16, Seq<char>)>(()),
            Err(e) => sign_in_result(
                match stored {
                    Some(h) => Some(h@),
                    None => None,
                },
                password@,
            ) == Err::<(), (u16, Seq<char>)>((e.status(), e.text())),
        },
        match stored {
            None => r matches Err(AppError::Forbidden { cause }) && cause@ == "Invalid email or password"@,
            Some(h) => match argon2_verify(password@, h@) {
                Ok(true) => r is Ok,
                Ok(false) => r matches Err(AppError::Forbidden { cause }) && cause@
                    == "Invalid email or password"@,
                Err(t) => r matches Err(AppError::ServerError { cause }) && cause@ == t,
            },
        },
{
    match stored {
        None => Err(AppError::Forbidden { cause: String::from_str(INVALID_CREDENTIALS) }),
        Some(h) => match argon2_check(password, h) {
            Ok(true) => Ok(()),
            Ok(false) => Err(AppError::Forbidden { cause: String::from_str(INVALID_CREDENTIALS) }),
            Err(t) => Err(AppError::ServerError { cause: t }),
        },
    }
}

/// A user whose stored hash is the one that `hash_password` made of a password (its
/// `ensures`: that hash verifies against that password) signs in with that password:
/// `check_credentials` on that hash and password succeeds.
pub proof fn law_stored_password_signs_in(password: Seq<char>, stored: Seq<char>)
    requires
        argon2_verify(password, stored) == Ok::<bool, Seq<char>>(true),
    ensures
        sign_in_result(Some(stored), password) == Ok::<(), (u16, Seq<char>)>(()),
{
}

/// Signing in is refused with 403 and `Invalid email or password` where no user was
/// found or the password does not match, whatever the password; it fails with 500 and
/// the reader's message where the stored hash cannot be read; it succeeds only where the
/// stored hash verifies against the password.
pub proof fn law_sign_in_outcomes(stored: Option<Seq<char>>, password: Seq<char>)
    ensures
        match stored {
            None => sign_in_result(stored, password) == Err::<(), (u16, Seq<char>)>(
                (403u16, "Invalid email or password"@),
            ),
            Some(h) => match argon2_verify(password, h) {
                Ok(true) => sign_in_result(stored, password) == Ok::<(), (u16, Seq<char>)>(()),
                Ok(false) => sign_in_result(stored, password) == Err::<(), (u16, Seq<char>)>(
                    (403u16, "Invalid email or password"@),
                ),
                Err(t) => sign_in_result(stored, password) == Err::<(), (u16, Seq<char>)>(
                    (500u16, t),
                ),
            },
        },
{
}

/// Without a user found, no password signs in, and the refusal is the same as for a
/// wrong password.
pub proof fn law_unknown_user_is_refused(password: Seq<char>)
    ensures
        sign_in_result(None, password) == Err::<(), (u16, Seq<char>)>((403u16, INVALID_CREDENTIALS@)),
{
}

} // verus!
