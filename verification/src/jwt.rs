use vstd::prelude::*;

use std::collections::BTreeMap;

use jsonwebtoken::{DecodingKey, EncodingKey, Header, Validation};
use serde_json::Value;

use crate::error::AppError;
use crate::ids::{parse_id, uuid_parsed};

verus! {

/// How long a token stays valid: 24 hours, in seconds.
pub const TOKEN_LIFETIME_SECONDS: i64 = 86400;

/// The claims of an access token.
#[derive(Debug, Clone, PartialEq, Eq)]
pub struct Claims {
    /// User identifier (UUID as a string)
    pub sub: String,
    /// Expiry, in seconds since the Unix epoch.
    pub exp: usize,
}

/// The last second that a `chrono::DateTime<Utc>` can hold: the end of
/// `DateTime::<Utc>::MAX_UTC`, December 31 of year `MAX_YEAR` = 262143, as
/// seconds since the Unix epoch.
pub const LATEST_CLOCK_SECOND: i64 = 8_210_298_412_799;

/// The current time in whole seconds since the Unix epoch:
/// `chrono::Utc::now().timestamp()`. Which second it is, is not stated (it is
/// the clock); only that, like every `DateTime<Utc>`, it is no later than
/// `DateTime::<Utc>::MAX_UTC`.
#[verifier::external_body]
pub(crate) fn unix_now() -> (seconds: i64)
    ensures
        seconds <= LATEST_CLOCK_SECOND,
{
    chrono::Utc::now().timestamp()
}

/// The expiry of a token issued at `now`, or `None` where it leaves the range of
/// an `i64` second count.
pub open spec fn expiry_at(now: i64) -> Option<usize> {
    if now + TOKEN_LIFETIME_SECONDS <= i64::MAX {
        Some((now + TOKEN_LIFETIME_SECONDS) as usize)
    } else {
        None
    }
}

/// A token lasts a day from the second it is issued at: every second the clock
/// can read has an expiry, and that expiry is that second plus 86400 wherever
/// the sum is a `usize`; so two issue seconds a day apart give expiries a day
/// apart.
pub proof fn token_lifetime_law(now: i64, later: i64)
    ensures
        now <= LATEST_CLOCK_SECOND ==> expiry_at(now) is Some,
        expiry_at(now) matches Some(e) ==> (0 <= now + 86400 <= usize::MAX ==> e == now + 86400),
        expiry_at(now) matches Some(e1) ==> (expiry_at(later) matches Some(e2) ==> (0 <= now + 86400
            <= usize::MAX && 0 <= later + 86400 <= usize::MAX ==> e2 - e1 == later - now)),
{
}

/// The claims of a token for `user_id` issued at `now` (seconds since the
/// epoch): it expires 24 hours later. `None` where that moment is beyond the
/// range of the clock's seconds.
pub fn claims_at(user_id: &str, now: i64) -> (claims: Option<Claims>)
    ensures
        match expiry_at(now) {
            Some(exp) => claims matches Some(c) && c.sub@ == user_id@ && c.exp == exp,
            None => claims is None,
        },
{
    if now > i64::MAX - TOKEN_LIFETIME_SECONDS {
        return None;
    }
    let expiration = now + TOKEN_LIFETIME_SECONDS;
    Some(Claims { sub: user_id.to_owned(), exp: expiration as usize })
}

/// The claims of a token for `user_id` issued now; it expires 24 hours from
/// now. The clock never reaches a second where that overflows, so claims are
/// always given.
pub fn new_claims(user_id: &str) -> (claims: Option<Claims>)
    ensures
        claims is Some,
        claims matches Some(c) ==> c.sub@ == user_id@ && exists|now: i64|
            now <= LATEST_CLOCK_SECOND && #[trigger] expiry_at(now) == Some(c.exp),
{
    let now = unix_now();
    claims_at(user_id, now)
}

/// `jsonwebtoken::errors::Error`, what signing can fail with; opaque here.
#[verifier::external_type_specification]
#[verifier::external_body]
pub struct ExJwtError(jsonwebtoken::errors::Error);

/// The first part of every token signed here: the default header
/// `{"typ":"JWT","alg":"HS256"}` as unpadded base64url.
pub open spec fn hs256_header_part() -> Seq<char> {
    "eyJ0eXAiOiJKV1QiLCJhbGciOiJIUzI1NiJ9"@
}

/// A compact token of three parts joined by `.`: the HS256 header part, then a
/// non-empty payload part and a non-empty signature part, neither holding a `.`.
pub open spec fn is_hs256_compact(t: Seq<char>) -> bool {
    let h = hs256_header_part().len() as int;
    &&& h < t.len()
    &&& t.subrange(0, h) == hs256_header_part()
    &&& exists|i: int|
        #![trigger t[i]]
        h + 1 < i < t.len() - 1 && forall|j: int|
            0 <= j < t.len() ==> (#[trigger] t[j] == '.' <==> (j == h || j == i))
}

/// The token that `jsonwebtoken::encode` makes, with the default header
/// (HS256) and the key `secret`, of the claims object `{"sub", "exp"}` (in that
/// order).
pub uninterp spec fn hs256_token(sub: Seq<char>, exp: nat, secret: Seq<char>) -> Seq<char>;

/// What a token says under a secret, the clock aside: `Some((sub, exp))` where
/// the token is `header.payload.signature`, its header names the algorithm
/// HS256, its signature is the HMAC-SHA256 of `header.payload` under the
/// secret's bytes (unpadded base64url), and its payload, read by `serde_json`
/// into a map of JSON values, holds a string `sub` and an unsigned integer
/// `exp` within `u64`; `None` otherwise (malformed, another algorithm, a
/// signature that does not verify under this secret, or other claims).
pub uninterp spec fn hs256_claims(token: Seq<char>, secret: Seq<char>) -> Option<(Seq<char>, nat)>;

/// `jsonwebtoken::encode` of the claims, as a JSON object with the fields
/// `sub` then `exp`, under the default header (HS256) with the secret's bytes as
/// HMAC key. The result is named `hs256_token`; for an HMAC key and header it
/// never fails (the key family matches, the JSON always serialises, and HMAC
/// signing has no error case). The token has the compact shape of
/// `is_hs256_compact` (the header part, then base64url parts, whose alphabet
/// has no `.`, of a non-empty JSON text and of a 32-byte MAC), and under the
/// same secret it reads back as the claims it was made of.
#[verifier::external_body]
pub(crate) fn encode_claims(claims: &Claims, secret: &str) -> (token: Result<String, jsonwebtoken::errors::Error>)
    ensures
        token is Ok,
        token matches Ok(t) ==> {
            &&& t@ == hs256_token(claims.sub@, claims.exp as nat, secret@)
            &&& hs256_claims(t@, secret@) == Some((claims.sub@, claims.exp as nat))
            &&& is_hs256_compact(t@)
        },
{
    let mut object: serde_json::Map<String, Value> = serde_json::Map::new();
    object.insert("sub".to_owned(), Value::from(claims.sub.clone()));
    object.insert("exp".to_owned(), Value::from(claims.exp));
    jsonwebtoken::encode(&Header::default(), &object, &EncodingKey::from_secret(secret.as_bytes()))
}

/// `jsonwebtoken::decode` of a token under the secret's bytes as HMAC key and
/// the default validation (HS256 only, signature checked, `exp` required and
/// not past, with the crate's leeway), read back as claims with a string `sub`
/// and an unsigned `exp`; `None` where decoding fails, a claim is missing or of
/// another type, or `exp` does not fit a `usize`. Whether a well-signed token is
/// still valid depends on the clock, so when `None` comes back for such a token
/// is not stated; what is stated is that claims come back only from a token
/// that verifies under the secret, and are the ones it holds.
#[verifier::external_body]
fn decode_claims(token: &str, secret: &str) -> (claims: Option<Claims>)
    ensures
        claims matches Some(c) ==> hs256_claims(token@, secret@) == Some((c.sub@, c.exp as nat)),
{
    let key = DecodingKey::from_secret(secret.as_bytes());
    let data = match jsonwebtoken::decode::<BTreeMap<String, Value>>(token, &key, &Validation::default()) {
        Ok(d) => d,
        Err(_) => return None,
    };
    match (data.claims.get("sub"), data.claims.get("exp").and_then(Value::as_u64)) {
        (Some(Value::String(sub)), Some(exp)) => match usize::try_from(exp) {
            Ok(exp) => Some(Claims { sub: sub.clone(), exp }),
            Err(_) => None,
        },
        _ => None,
    }
}

/// Signs a token for `user_id` (its subject) that expires 24 hours from now:
/// the default header (HS256) and the secret as HMAC key. Under that secret the
/// token reads back as `user_id` and that expiry.
pub fn generate_jwt(user_id: &str, secret: &str) -> (token: Result<String, jsonwebtoken::errors::Error>)
    ensures
        token is Ok,
        token matches Ok(t) ==> exists|now: i64|
            now <= LATEST_CLOCK_SECOND && #[trigger] expiry_at(now) is Some && {
                let exp = expiry_at(now)->0 as nat;
                &&& t@ == hs256_token(user_id@, exp, secret@)
                &&& hs256_claims(t@, secret@) == Some((user_id@, exp))
            },
        token matches Ok(t) ==> is_hs256_compact(t@),
{
    let claims = new_claims(user_id).unwrap();
    encode_claims(&claims, secret)
}

/// The user a valid token names: its signature and expiry must hold under the
/// secret, and its subject must be a UUID; otherwise `Unauthorized`. A token
/// that does not verify under the secret (malformed, signed with another key
/// or algorithm, or without a string `sub` and unsigned `exp`) is refused, and
/// an accepted token names the user its subject reads as.
pub fn validate_token(token: &str, secret: &str) -> (user: Result<u128, AppError>)
    ensures
        user is Ok || user matches Err(AppError::Unauthorized),
        hs256_claims(token@, secret@) is None ==> user matches Err(AppError::Unauthorized),
        user matches Ok(id) ==> hs256_claims(token@, secret@) matches Some((sub, _)) && uuid_parsed(sub)
            == Some(id),
{
    match decode_claims(token, secret) {
        Some(claims) => subject_user_id(&claims),
        None => Err(AppError::Unauthorized),
    }
}

/// The user a token's claims name, or `Unauthorized` when the subject is not a UUID.
pub fn subject_user_id(claims: &Claims) -> (user: Result<u128, AppError>)
    ensures
        match uuid_parsed(claims.sub@) {
            Some(id) => user == Ok::<u128, AppError>(id),
            None => user matches Err(AppError::Unauthorized),
        },
{
    match parse_id(claims.sub.as_str()) {
        Some(id) => Ok(id),
        None => Err(AppError::Unauthorized),
    }
}

} // verus!
