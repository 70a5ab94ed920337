use vstd::prelude::*;

use crate::domain::models::UserProfile;
use crate::error::AppError;
use crate::ids::{id_to_text, uuid_text};

verus! {

/// How long a cached profile stays valid: 5 minutes, in seconds.
pub const PROFILE_CACHE_TTL_SECONDS: u64 = 300;

/// The cache key of a user's profile: `user:` and the hyphenated UUID.
pub open spec fn user_cache_key_of(user_id: u128) -> Seq<char> {
    "user:"@ + uuid_text(user_id)
}

/// The cache key under which a user's profile is kept: `user:<uuid>`.
pub fn user_cache_key(user_id: u128) -> (key: String)
    ensures
        key@ == user_cache_key_of(user_id),
{
    let mut key = String::from_str("user:");
    let id = id_to_text(user_id);
    key.append(id.as_str());
    key
}

/// Where the look-up of a user's profile stands: the cache is asked first, the
/// database only on a miss.
#[derive(Debug, Clone, Copy, PartialEq, Eq)]
pub enum ProfileLookup {
    /// Waiting for the cache's answer under the user's key.
    AwaitingCache,
    /// Waiting for the user's row from the database.
    AwaitingDatabase,
    /// The look-up has answered.
    Done,
}

/// What the outside world reports back to a profile look-up.
#[derive(Debug, PartialEq, Eq)]
pub enum ProfileEvent {
    /// The cache answered: the profile stored under the user's key, where one
    /// was there and could be read (`None` on a miss, a cache failure or an
    /// unreadable entry).
    CacheRead(Option<UserProfile>),
    /// The database answered with the user's row, or with the query's error.
    DatabaseRead(Result<UserProfile, AppError>),
}

/// What a profile look-up asks the outside world to do next.
#[derive(Debug, Clone, PartialEq, Eq)]
pub enum ProfileAction {
    /// Read the user's row from the database.
    QueryDatabase,
    /// Answer with this profile.
    Answer(UserProfile),
    /// Store this profile under the user's key for
    /// `PROFILE_CACHE_TTL_SECONDS` (a failure to store is ignored), then answer
    /// with it.
    CacheAndAnswer(UserProfile),
    /// Answer with this error.
    Fail(AppError),
}

impl ProfileLookup {
    /// A look-up that starts by asking the cache.
    pub fn start() -> (l: ProfileLookup)
        ensures
            l == ProfileLookup::AwaitingCache,
    {
        ProfileLookup::AwaitingCache
    }

    /// One step of the look-up: a cached profile is the answer, with no
    /// database query; a miss goes to the database, whose row is cached and
    /// then answered, and whose error is the answer. An event that does not
    /// fit the state ends the look-up with an internal error.
    pub fn step(self, event: ProfileEvent) -> (next: (ProfileLookup, ProfileAction))
        ensures
            match (self, event) {
                (ProfileLookup::AwaitingCache, ProfileEvent::CacheRead(Some(p))) => next == (
                    ProfileLookup::Done,
                    ProfileAction::Answer(p),
                ),
                (ProfileLookup::AwaitingCache, ProfileEvent::CacheRead(None)) => next == (
                    ProfileLookup::AwaitingDatabase,
                    ProfileAction::QueryDatabase,
                ),
                (ProfileLookup::AwaitingDatabase, ProfileEvent::DatabaseRead(Ok(p))) => next == (
                    ProfileLookup::Done,
                    ProfileAction::CacheAndAnswer(p),
                ),
                (ProfileLookup::AwaitingDatabase, ProfileEvent::DatabaseRead(Err(e))) => next == (
                    ProfileLookup::Done,
                    ProfileAction::Fail(e),
                ),
                _ => next.0 == ProfileLookup::Done && next.1 matches ProfileAction::Fail(
                    AppError::Internal(_),
                ),
            },
    {
        match (self, event) {
            (ProfileLookup::AwaitingCache, ProfileEvent::CacheRead(Some(p))) => (
                ProfileLookup::Done,
                ProfileAction::Answer(p),
            ),
            (ProfileLookup::AwaitingCache, ProfileEvent::CacheRead(None)) => (
                ProfileLookup::AwaitingDatabase,
                ProfileAction::QueryDatabase,
            ),
            (ProfileLookup::AwaitingDatabase, ProfileEvent::DatabaseRead(Ok(p))) => (
                ProfileLookup::Done,
                ProfileAction::CacheAndAnswer(p),
            ),
            (ProfileLookup::AwaitingDatabase, ProfileEvent::DatabaseRead(Err(e))) => (
                ProfileLookup::Done,
                ProfileAction::Fail(e),
            ),
            _ => (
                ProfileLookup::Done,
                ProfileAction::Fail(AppError::Internal(String::from_str("Unexpected profile look-up event"))),
            ),
        }
    }
}

} // verus!
