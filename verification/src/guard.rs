use crate::account::User;
use crate::envelope::{query_failure, Response, Status};
use crate::token::{decoded_fields, verdict, AuthConfig, Claims};
use vstd::prelude::*;

verus! {

/// What the guard decides on a request: the claims of a good token, or the text with
/// which the request is turned away as unauthorized.
pub open spec fn guard_verdict(header: Option<Seq<char>>, secret: Seq<char>, now: int) -> Result<
    Claims,
    Seq<char>,
> {
    match header {
        None => Err("header missing"@),
        Some(token) => match verdict(decoded_fields(token, secret), now) {
            Ok(claims) => Ok(claims),
            Err(_) => Err("invalid token"@),
        },
    }
}

/// The view of a header that may be absent.
pub open spec fn header_view(header: Option<&str>) -> Option<Seq<char>> {
    match header {
        Some(token) => Some(token@),
        None => None,
    }
}

impl Claims {
    /// Guards a request: with no token in the header the request is turned away, with a
    /// token that does not verify at `now` too, and with a good token the claims are let
    /// through. Nothing is changed anywhere.
    pub fn from_request(header: Option<&str>, now: usize, config: &AuthConfig) -> (r: Result<
        Claims,
        Response,
    >)
        ensures
            match guard_verdict(header_view(header), config.secret_spec(), now as int) {
                Ok(claims) => r == Ok::<Claims, Response>(claims),
                Err(reason) => r matches Err(response) && response.is_text(
                    reason,
                    Status::Unauthorized,
                ),
            },
    {
        match header {
            None => Err(Response::text("header missing", Status::Unauthorized)),
            Some(token) => match Claims::verify(token, now, config) {
                Ok(claims) => Ok(claims),
                Err(_) => Err(Response::text("invalid token", Status::Unauthorized)),
            },
        }
    }

    /// The last step of the guard, for callers that look the subject up: the id of the
    /// account when the store holds it, else the request is turned away; when the store
    /// could not be asked, its error goes out.
    pub fn confirm_account(&self, found: &Result<Option<User>, String>) -> (r: Result<
        i32,
        Response,
    >)
        ensures
            match found {
                Ok(Some(account)) if account.id == self.sub => r == Ok::<i32, Response>(
                    self.sub,
                ),
                Err(e) => r matches Err(response) && response.is_text(
                    query_failure(e@),
                    Status::InternalServerError,
                ),
                _ => r matches Err(response) && response.is_text(
                    "account no longer exists"@,
                    Status::Unauthorized,
                ),
            },
    {
        match found {
            Ok(Some(account)) if account.id == self.sub => Ok(self.sub),
            Err(e) => Err(Response::store_failure(e.as_str())),
            _ => Err(Response::text("account no longer exists", Status::Unauthorized)),
        }
    }
}

} // verus!
