//! The time rule of the bearer tokens: a token carries its issue time, and
//! is accepted only while that time is within a minute of the verifier's
//! clock.
use crate::error::AuthError;
use vstd::prelude::*;

verus! {

/// How many seconds the issue time of a token may lie before or after the
/// verifier's clock.
pub const ISSUE_TIME_TOLERANCE: u64 = 60;

/// The claims of a token.
#[derive(Debug, Clone, Copy, PartialEq, Eq, Structural)]
pub struct Claims {
    /// The issue time, in seconds since the epoch.
    pub iat: u64,
}

/// What reading a token with the shared secret gave.
#[derive(Debug, Clone, Copy, PartialEq, Eq, Structural)]
pub enum TokenReading {
    /// The token could not be read.
    Malformed,
    /// The token was read, and its signature is not ours.
    BadSignature,
    /// The token was read and its signature is ours.
    Signed(Claims),
}

/// Whether `issued_at` is at most the tolerance away from `now`.
pub open spec fn within_window(issued_at: u64, now: u64) -> bool {
    now - ISSUE_TIME_TOLERANCE <= issued_at <= now + ISSUE_TIME_TOLERANCE
}

/// The verdict on a token read at time `now`.
pub open spec fn verdict(reading: TokenReading, now: u64) -> Result<(), AuthError> {
    match reading {
        TokenReading::Malformed => Err(AuthError::Malformed),
        TokenReading::BadSignature => Err(AuthError::InvalidSignature),
        TokenReading::Signed(claims) => if claims.iat + ISSUE_TIME_TOLERANCE < now {
            Err(AuthError::Expired)
        } else if claims.iat > now + ISSUE_TIME_TOLERANCE {
            Err(AuthError::Premature)
        } else {
            Ok(())
        },
    }
}

/// The claims of a token issued at time `now`.
pub fn claims_at(now: u64) -> (r: Claims)
    ensures
        r.iat == now,
{
    Claims { iat: now }
}

/// Whether an issue time is acceptable at time `now`.
pub fn issue_time_in_window(issued_at: u64, now: u64) -> (r: bool)
    ensures
        r == within_window(issued_at, now),
{
    if issued_at <= now {
        now - issued_at <= ISSUE_TIME_TOLERANCE
    } else {
        issued_at - now <= ISSUE_TIME_TOLERANCE
    }
}

/// Decides on a token from what reading it gave and the time `now`.
pub fn verify_token(reading: TokenReading, now: u64) -> (r: Result<(), AuthError>)
    ensures
        r == verdict(reading, now),
{
    match reading {
        TokenReading::Malformed => Err(AuthError::Malformed),
        TokenReading::BadSignature => Err(AuthError::InvalidSignature),
        TokenReading::Signed(claims) => {
            if issue_time_in_window(claims.iat, now) {
                Ok(())
            } else if claims.iat < now {
                Err(AuthError::Expired)
            } else {
                Err(AuthError::Premature)
            }
        },
    }
}

/// A signed token is accepted exactly when its issue time is within the
/// window; one with a bad signature or one that cannot be read never is.
pub proof fn accepted_iff_signed_and_in_window(reading: TokenReading, now: u64)
    ensures
        verdict(reading, now) is Ok <==> (reading matches TokenReading::Signed(claims)
            && within_window(claims.iat, now)),
{
}

/// A token is accepted up to sixty seconds before and after its issue time,
/// and at no other time.
pub proof fn accepted_iff_at_most_a_minute_apart(issued_at: u64, now: u64)
    ensures
        verdict(TokenReading::Signed(Claims { iat: issued_at }), now) is Ok <==> (issued_at - now
            <= 60 && now - issued_at <= 60),
{
}

} // verus!
