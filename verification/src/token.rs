use crate::envelope::{Response, Status};
use vstd::prelude::*;

verus! {

/// The claims a token carries.
#[derive(Clone, Copy, Debug, PartialEq, Eq, Structural)]
pub struct Claims {
    /// Expiry, in seconds since the epoch
    pub exp: usize,
    /// Issued at, in seconds since the epoch
    pub iat: usize,
    /// The id of the account the token speaks for
    pub sub: i32,
}

/// The three claims as they come out of a decoded token, each absent or an integer.
#[derive(Clone, Copy, Debug, PartialEq, Eq, Structural)]
pub struct ClaimFields {
    pub sub: Option<i128>,
    pub iat: Option<i128>,
    pub exp: Option<i128>,
}

/// Why a token is turned away.
#[derive(Clone, Copy, Debug, PartialEq, Eq, Structural)]
pub enum AuthError {
    /// The encoding, the signature or the claims are not what this service issues.
    Malformed,
    /// The expiry has been reached.
    Expired,
    /// The token claims to have been issued later than now.
    NotYetValid,
}

/// Why no token was issued.
#[derive(Clone, Copy, Debug, PartialEq, Eq, Structural)]
pub enum IssueError {
    /// The expiry does not fit the clock's range.
    Overflow,
    /// Signing failed. Signing with a secret does not fail, so `new_token` never
    /// gives this.
    Signing,
}

/// The signing secret and the lifetime of a token, fixed when the process starts.
pub struct AuthConfig {
    secret: String,
    ttl_secs: usize,
}

/// The seconds in an hour.
pub const SECONDS_PER_HOUR: usize = 3600;

impl AuthConfig {
    /// The secret that tokens are signed with.
    pub closed spec fn secret_spec(&self) -> Seq<char> {
        self.secret@
    }

    /// The lifetime of a token in seconds.
    pub closed spec fn ttl_spec(&self) -> nat {
        self.ttl_secs as nat
    }

    /// A configuration with the given secret and a lifetime in hours; none when the
    /// lifetime in seconds does not fit a `usize`.
    pub fn new(secret: String, ttl_hours: usize) -> (c: Option<AuthConfig>)
        ensures
            c is Some <==> ttl_hours * SECONDS_PER_HOUR <= usize::MAX,
            c matches Some(cfg) ==> cfg.secret_spec() == secret@ && cfg.ttl_spec()
                == ttl_hours * SECONDS_PER_HOUR,
    {
        match ttl_hours.checked_mul(SECONDS_PER_HOUR) {
            Some(ttl_secs) => Some(AuthConfig { secret, ttl_secs }),
            None => None,
        }
    }

    /// The lifetime of a token in seconds.
    pub fn ttl_secs(&self) -> (t: usize)
        ensures
            t == self.ttl_spec(),
    {
        self.ttl_secs
    }
}

/// The token that `jsonwebtoken` makes of three claims under the default header,
/// signed with HMAC-SHA256 under a secret.
pub uninterp spec fn signed_token(sub: int, iat: int, exp: int, secret: Seq<char>) -> Seq<char>;

/// What `jsonwebtoken` finds in a token under a secret when it checks the signature
/// and not the clock: nothing, or the claims `sub`, `iat` and `exp`.
pub uninterp spec fn decoded_fields(token: Seq<char>, secret: Seq<char>) -> Option<ClaimFields>;

/// The fields that decoding finds in a token made of these claims.
pub open spec fn fields_of(claims: Claims) -> ClaimFields {
    ClaimFields {
        sub: Some(claims.sub as i128),
        iat: Some(claims.iat as i128),
        exp: Some(claims.exp as i128),
    }
}

#[verifier::external_type_specification]
#[verifier::external_body]
pub struct ExJwtError(jsonwebtoken::errors::Error);

/// `jsonwebtoken::encode` with the default header (HS256) and the secret's bytes as
/// the key, on the payload `{"exp": .., "iat": .., "sub": ..}`. The call succeeds: a
/// key made from a secret is of the family of the default header's algorithm, the
/// header and a map from texts to integers both serialise, and signing with HMAC
/// does not fail. The token is determined by the claims and the secret, and it
/// decodes under the same secret to the claims that went in: to check an HMAC
/// signature the crate signs the message again and compares.
#[verifier::external_body]
fn sign(claims: &Claims, secret: &str) -> (r: Result<String, jsonwebtoken::errors::Error>)
    ensures
        r is Ok,
        r matches Ok(t) ==> t@ == signed_token(
            claims.sub as int,
            claims.iat as int,
            claims.exp as int,
            secret@,
        ),
        r matches Ok(t) ==> decoded_fields(t@, secret@) == Some(fields_of(*claims)),
{
    let mut payload = std::collections::BTreeMap::new();
    payload.insert("exp", claims.exp as i128);
    payload.insert("iat", claims.iat as i128);
    payload.insert("sub", claims.sub as i128);
    let key = jsonwebtoken::EncodingKey::from_secret(secret.as_bytes());
    jsonwebtoken::encode(&jsonwebtoken::Header::default(), &payload, &key)
}

/// `jsonwebtoken::decode` for HS256 with the secret's bytes as the key and the expiry
/// check switched off, into a map from claim names to integers. Gives nothing when the
/// crate rejects the token, which it does for a signature that does not match and for
/// a payload that is no JSON object of integers; else the three claims picked from the
/// map. With the expiry check off the crate does not read the clock, so the result
/// depends on the token and the secret alone.
#[verifier::external_body]
fn unseal(token: &str, secret: &str) -> (r: Option<ClaimFields>)
    ensures
        r == decoded_fields(token@, secret@),
{
    let mut rules = jsonwebtoken::Validation::new(jsonwebtoken::Algorithm::HS256);
    rules.validate_exp = false;
    let key = jsonwebtoken::DecodingKey::from_secret(secret.as_bytes());
    match jsonwebtoken::decode::<std::collections::BTreeMap<String, i128>>(token, &key, &rules) {
        Ok(data) => Some(ClaimFields {
            sub: data.claims.get("sub").copied(),
            iat: data.claims.get("iat").copied(),
            exp: data.claims.get("exp").copied(),
        }),
        Err(_) => None,
    }
}

/// The claims that a decoded token states, when it states all three within their ranges.
pub open spec fn claims_of(fields: ClaimFields) -> Option<Claims> {
    match (fields.sub, fields.iat, fields.exp) {
        (Some(sub), Some(iat), Some(exp)) => if i32::MIN <= sub <= i32::MAX && 0 <= iat
            <= usize::MAX && 0 <= exp <= usize::MAX {
            Some(Claims { exp: exp as usize, iat: iat as usize, sub: sub as i32 })
        } else {
            None
        },
        _ => None,
    }
}

/// A token is good from the second it was issued up to, and not including, its expiry.
pub open spec fn valid_at(claims: Claims, now: int) -> bool {
    claims.iat <= now < claims.exp
}

/// The verdict on what decoding found, at a given time.
pub open spec fn verdict(decoded: Option<ClaimFields>, now: int) -> Result<Claims, AuthError> {
    match decoded {
        None => Err(AuthError::Malformed),
        Some(fields) => match claims_of(fields) {
            None => Err(AuthError::Malformed),
            Some(claims) => if now >= claims.exp {
                Err(AuthError::Expired)
            } else if now < claims.iat {
                Err(AuthError::NotYetValid)
            } else {
                Ok(claims)
            },
        },
    }
}

/// The claims of a token issued for `sub` at `now` that lives `ttl` seconds.
pub open spec fn issued_claims(sub: i32, now: usize, ttl: nat) -> Claims
    recommends
        now + ttl <= usize::MAX,
{
    Claims { exp: (now + ttl) as usize, iat: now, sub }
}

/// What issuing a token for `sub` at `now` comes to: the token signed over the claims
/// issued, or that the expiry does not fit the clock's range.
pub open spec fn issued(sub: i32, now: usize, config: &AuthConfig) -> Result<Seq<char>, IssueError> {
    if now + config.ttl_spec() <= usize::MAX {
        Ok(
            signed_token(
                sub as int,
                now as int,
                now + config.ttl_spec(),
                config.secret_spec(),
            ),
        )
    } else {
        Err(IssueError::Overflow)
    }
}

impl Claims {
    /// Reads the claims out of what decoding found.
    pub fn from_fields(fields: &ClaimFields) -> (c: Option<Claims>)
        ensures
            c == claims_of(*fields),
    {
        match (fields.sub, fields.iat, fields.exp) {
            (Some(sub), Some(iat), Some(exp)) => {
                if sub < i32::MIN as i128 || sub > i32::MAX as i128 {
                    None
                } else if iat < 0 || iat > usize::MAX as i128 {
                    None
                } else if exp < 0 || exp > usize::MAX as i128 {
                    None
                } else {
                    Some(Claims { exp: exp as usize, iat: iat as usize, sub: sub as i32 })
                }
            },
            _ => None,
        }
    }

    /// Decides on what decoding found: the claims when they are complete and `now` lies
    /// between issue and expiry, else the reason for turning the token away.
    pub fn check(decoded: Option<ClaimFields>, now: usize) -> (r: Result<Claims, AuthError>)
        ensures
            r == verdict(decoded, now as int),
            r matches Ok(claims) ==> valid_at(claims, now as int),
    {
        match decoded {
            None => Err(AuthError::Malformed),
            Some(fields) => match Claims::from_fields(&fields) {
                None => Err(AuthError::Malformed),
                Some(claims) => {
                    if now >= claims.exp {
                        Err(AuthError::Expired)
                    } else if now < claims.iat {
                        Err(AuthError::NotYetValid)
                    } else {
                        Ok(claims)
                    }
                },
            },
        }
    }

    /// Issues a token for an account at the time `now`: its claims are the account's id,
    /// `now` as the time of issue and `now` plus the configured lifetime as the expiry.
    /// A token is issued whenever the expiry fits the clock's range. It decodes under
    /// the configured secret to the claims issued and, with a lifetime of at least a
    /// second, is one that `verify` accepts at `now`.
    pub fn new_token(sub: i32, now: usize, config: &AuthConfig) -> (r: Result<String, IssueError>)
        ensures
            match issued(sub, now, config) {
                Ok(token) => r matches Ok(t) && t@ == token,
                Err(e) => r == Err::<String, IssueError>(e),
            },
            r matches Ok(token) ==> decoded_fields(token@, config.secret_spec()) == Some(
                fields_of(issued_claims(sub, now, config.ttl_spec())),
            ),
            r matches Ok(token) ==> config.ttl_spec() > 0 ==> verdict(
                decoded_fields(token@, config.secret_spec()),
                now as int,
            ) == Ok::<Claims, AuthError>(issued_claims(sub, now, config.ttl_spec())),
    {
        match now.checked_add(config.ttl_secs) {
            None => Err(IssueError::Overflow),
            Some(exp) => {
                let claims = Claims { exp, iat: now, sub };
                match sign(&claims, config.secret.as_str()) {
                    Ok(token) => Ok(token),
                    Err(_) => Err(IssueError::Signing),
                }
            },
        }
    }

    /// Checks a token at the time `now`: the signature and the shape of the claims
    /// through `jsonwebtoken`, then the time window. Whether the account still exists
    /// is not looked at here.
    pub fn verify(token: &str, now: usize, config: &AuthConfig) -> (r: Result<Claims, AuthError>)
        ensures
            r == verdict(decoded_fields(token@, config.secret_spec()), now as int),
            r matches Ok(claims) ==> valid_at(claims, now as int),
    {
        Claims::check(unseal(token, config.secret.as_str()), now)
    }
}

/// The reply that hands out a token, or reports that none could be issued.
pub fn token_reply(issued: Result<String, IssueError>, status: Status) -> (r: Response)
    ensures
        match issued {
            Ok(token) => r.is_text(token@, status),
            Err(_) => r.is_text("Failed to issue token"@, Status::InternalServerError),
        },
{
    match issued {
        Ok(token) => Response::text(token.as_str(), status),
        Err(_) => Response::text("Failed to issue token", Status::InternalServerError),
    }
}

/// Whether a reply is the one that issuing a token for `sub` at `now` ends in: the
/// token with the status asked for, or, when the expiry does not fit the clock's
/// range, the report that none could be issued.
pub open spec fn is_token_reply(
    r: Response,
    sub: i32,
    now: usize,
    config: &AuthConfig,
    status: Status,
) -> bool {
    match issued(sub, now, config) {
        Ok(token) => r.is_text(token, status),
        Err(_) => r.is_text("Failed to issue token"@, Status::InternalServerError),
    }
}

/// Issues a token for an account and replies with it.
pub fn issue_reply(sub: i32, now: usize, config: &AuthConfig, status: Status) -> (r: Response)
    ensures
        is_token_reply(r, sub, now, config, status),
{
    token_reply(Claims::new_token(sub, now, config), status)
}

/// A token that lives `ttl` seconds, with `ttl` at least one, is accepted in the last
/// second before its expiry and turned away as expired at the expiry itself.
pub proof fn lemma_expiry_boundary(sub: i32, iat: usize, ttl: nat)
    requires
        ttl >= 1,
        iat + ttl <= usize::MAX,
    ensures
        verdict(Some(fields_of(issued_claims(sub, iat, ttl))), iat + ttl - 1) == Ok::<
            Claims,
            AuthError,
        >(issued_claims(sub, iat, ttl)),
        verdict(Some(fields_of(issued_claims(sub, iat, ttl))), iat + ttl as int) == Err::<
            Claims,
            AuthError,
        >(AuthError::Expired),
{
}

/// A token is accepted at exactly the times from its issue up to the second before its
/// expiry.
pub proof fn lemma_accepted_iff_valid(claims: Claims, now: int)
    ensures
        verdict(Some(fields_of(claims)), now) is Ok <==> valid_at(claims, now),
        verdict(Some(fields_of(claims)), now) is Ok ==> verdict(Some(fields_of(claims)), now)
            == Ok::<Claims, AuthError>(claims),
{
}

} // verus!
