//! Daedalus: the verified core of an application server.
use vstd::prelude::*;

use crate::result::AppError;
use crate::text::{parse_i64, parse_i64_spec, signed_decimal};

pub mod cli;
pub mod config;
pub mod handlers;
pub mod middleware;
pub mod models;
pub mod result;
pub mod services;
pub mod string_map;
pub mod text;
pub mod tmpl;

verus! {

/// The id of the signed-in user.
#[derive(Clone, Copy, Debug, PartialEq, Eq, Structural)]
pub struct UserId(pub i64);

/// The user id that an identity stands for: the id whose decimal text the identity is.
pub open spec fn identity_user(id: Option<Seq<char>>) -> Option<i64> {
    match id {
        Some(t) => parse_i64_spec(t),
        None => None,
    }
}

impl UserId {
    /// The user of a request, from the text of its identity where it has one; no
    /// identity, or one that is no `i64` in decimal, is `Unauthorized`.
    pub fn from_identity(id: Option<&str>) -> (r: Result<UserId, AppError>)
        ensures
            match r {
                Ok(u) => identity_user(
                    match id {
                        Some(t) => Some(t@),
                        None => None,
                    },
                ) == Some(u.0),
                Err(e) => identity_user(
                    match id {
                        Some(t) => Some(t@),
                        None => None,
                    },
                ) is None && e is Unauthorized,
            },
    {
        match id {
            Some(t) => match parse_i64(t) {
                Some(v) => Ok(UserId(v)),
                None => Err(AppError::Unauthorized),
            },
            None => Err(AppError::Unauthorized),
        }
    }
}

/// Signing in stores the user's id as its decimal text; reading that identity back
/// gives the same user.
pub proof fn law_identity_round_trip(id: i64)
    ensures
        identity_user(Some(signed_decimal(id as int))) == Some(id),
{
    crate::text::lemma_signed_decimal_parses_back(id);
}

} // verus!
