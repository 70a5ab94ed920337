use vstd::prelude::*;

use crate::error::AppError;
use crate::ids::uuid_parsed;
use crate::jwt::{hs256_claims, validate_token};

verus! {

/// The authenticated user of a request.
#[derive(Debug, Clone, Copy, PartialEq, Eq)]
pub struct CurrentUser {
    pub id: u128,
}

/// The scheme prefix of an `Authorization` header that carries a token.
pub open spec fn bearer_prefix() -> Seq<char> {
    "Bearer "@
}

/// The token an `Authorization` header carries, if it is a bearer header.
pub open spec fn bearer_token(header: Seq<char>) -> Option<Seq<char>> {
    if header.len() >= 7 && header.subrange(0, 7) == bearer_prefix() {
        Some(header.subrange(7, header.len() as int))
    } else {
        None
    }
}

/// Takes the token out of an `Authorization: Bearer <token>` header; a
/// missing header or another scheme is `Unauthorized`.
pub fn extract_token(auth_header: Option<&str>) -> (token: Result<String, AppError>)
    ensures
        match auth_header {
            None => token matches Err(AppError::Unauthorized),
            Some(h) => match bearer_token(h@) {
                Some(t) => token matches Ok(s) && s@ == t,
                None => token matches Err(AppError::Unauthorized),
            },
        },
{
    let header = match auth_header {
        Some(h) => h,
        None => return Err(AppError::Unauthorized),
    };
    let prefix = "Bearer ";
    proof {
        reveal_strlit("Bearer ");
    }
    let n = header.unicode_len();
    if n < 7 {
        return Err(AppError::Unauthorized);
    }
    let mut i: usize = 0;
    while i < 7
        invariant
            auth_header == Some(header),
            n == header@.len(),
            7 <= n,
            i <= 7,
            prefix@ == bearer_prefix(),
            prefix@.len() == 7,
            forall|k: int| 0 <= k < i ==> header@[k] == prefix@[k],
        decreases 7 - i,
    {
        if header.get_char(i) != prefix.get_char(i) {
            assert(header@.subrange(0, 7)[i as int] != bearer_prefix()[i as int]);
            return Err(AppError::Unauthorized);
        }
        i += 1;
    }
    assert(header@.subrange(0, 7) =~= bearer_prefix());
    Ok(header.substring_char(7, n).to_owned())
}

/// Authenticates a request by its `Authorization` header: the header must be
/// `Bearer <token>` with a token that verifies under the secret and names a
/// user; anything else (no header, another scheme, a malformed token, one
/// signed with another key or algorithm, an expired one, a subject that is not
/// a UUID) is `Unauthorized`. Gives the user and the token, by which a
/// revocation is looked up.
pub fn authenticate(auth_header: Option<&str>, secret: &str) -> (outcome: Result<(u128, String), AppError>)
    ensures
        outcome is Ok || outcome matches Err(AppError::Unauthorized),
        auth_header is None ==> outcome matches Err(AppError::Unauthorized),
        auth_header matches Some(h) ==> (bearer_token(h@) is None ==> outcome matches Err(
            AppError::Unauthorized,
        )),
        auth_header matches Some(h) ==> (bearer_token(h@) matches Some(t) ==> (hs256_claims(
            t,
            secret@,
        ) is None ==> outcome matches Err(AppError::Unauthorized))),
        outcome matches Ok((id, tok)) ==> {
            &&& auth_header matches Some(h) && bearer_token(h@) == Some(tok@)
            &&& hs256_claims(tok@, secret@) matches Some((sub, _)) && uuid_parsed(sub) == Some(id)
        },
{
    let token = match extract_token(auth_header) {
        Ok(t) => t,
        Err(e) => return Err(e),
    };
    match validate_token(token.as_str(), secret) {
        Ok(user) => Ok((user, token)),
        Err(e) => Err(e),
    }
}

/// A bearer header gives back the token it was made from.
pub proof fn bearer_header_round_trip(token: Seq<char>)
    ensures
        bearer_token(bearer_prefix() + token) == Some(token),
{
    reveal_strlit("Bearer ");
    let h = bearer_prefix() + token;
    assert(h.subrange(0, 7) =~= bearer_prefix());
    assert(h.subrange(7, h.len() as int) =~= token);
}

/// The cache key under which a revoked token is remembered.
pub open spec fn revocation_key_of(token_id: Seq<char>) -> Seq<char> {
    "revoked:"@ + token_id
}

/// The cache key under which a revoked token is remembered: `revoked:<id>`.
pub fn revocation_key(token_id: &str) -> (key: String)
    ensures
        key@ == revocation_key_of(token_id@),
{
    let mut key = String::from_str("revoked:");
    key.append(token_id);
    key
}

/// Different tokens are remembered under different keys.
pub proof fn revocation_keys_are_distinct(id1: Seq<char>, id2: Seq<char>)
    requires
        id1 != id2,
    ensures
        revocation_key_of(id1) != revocation_key_of(id2),
{
    let p = "revoked:"@;
    if revocation_key_of(id1) == revocation_key_of(id2) {
        assert((p + id1).subrange(p.len() as int, (p + id1).len() as int) =~= id1);
        assert((p + id2).subrange(p.len() as int, (p + id2).len() as int) =~= id2);
    }
}

/// Admits the user a valid token names, unless the token was revoked. A failed
/// look-up of the revocation list (`None`) does not block the request.
pub fn admit_user(subject: u128, revoked: Option<bool>) -> (admitted: Result<CurrentUser, AppError>)
    ensures
        revoked == Some(true) ==> admitted matches Err(AppError::Unauthorized),
        revoked != Some(true) ==> admitted == Ok::<CurrentUser, AppError>(CurrentUser { id: subject }),
{
    let is_revoked = match revoked {
        Some(b) => b,
        None => false,
    };
    if is_revoked {
        return Err(AppError::Unauthorized);
    }
    Ok(CurrentUser { id: subject })
}

} // verus!
