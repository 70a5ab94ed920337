use vstd::prelude::*;

use crate::domain::models::Message;
use crate::error::AppError;

verus! {

/// Page size when a request names none.
pub const DEFAULT_PAGE_SIZE: i64 = 50;

/// The largest page a request may ask for.
pub const MAX_PAGE_SIZE: i64 = 100;

/// Pagination parameters of a history request.
#[derive(Debug, Clone, Copy, PartialEq, Eq)]
pub struct GetMessagesQuery {
    pub limit: Option<i64>,
    pub offset: Option<i64>,
}

/// The page size served for a requested one: 50 when none is named,
/// otherwise the request clamped to `1..=100`.
pub open spec fn page_limit(limit: Option<i64>) -> i64 {
    let l = match limit {
        Some(l) => l,
        None => DEFAULT_PAGE_SIZE,
    };
    if l < 1 {
        1
    } else if l > MAX_PAGE_SIZE {
        MAX_PAGE_SIZE
    } else {
        l
    }
}

/// The offset served for a requested one: 0 when none is named or it is negative.
pub open spec fn page_offset(offset: Option<i64>) -> i64 {
    match offset {
        Some(o) => if o < 0 {
            0
        } else {
            o
        },
        None => 0,
    }
}

impl GetMessagesQuery {
    /// The `(limit, offset)` of the page to serve.
    pub fn page(&self) -> (page: (i64, i64))
        ensures
            page == (page_limit(self.limit), page_offset(self.offset)),
    {
        let requested = match self.limit {
            Some(l) => l,
            None => DEFAULT_PAGE_SIZE,
        };
        let limit = if requested < 1 {
            1
        } else if requested > MAX_PAGE_SIZE {
            MAX_PAGE_SIZE
        } else {
            requested
        };
        let start = match self.offset {
            Some(o) => o,
            None => 0,
        };
        let offset = if start < 0 {
            0
        } else {
            start
        };
        (limit, offset)
    }
}

/// Every page served has 1 to 100 messages at a non-negative offset, and a
/// request already in range is served as asked.
pub proof fn pages_are_bounded(limit: Option<i64>, offset: Option<i64>)
    ensures
        1 <= page_limit(limit) <= MAX_PAGE_SIZE,
        page_offset(offset) >= 0,
        forall|l: i64| limit == Some(l) && 1 <= l <= MAX_PAGE_SIZE ==> page_limit(limit) == l,
        forall|o: i64| offset == Some(o) && o >= 0 ==> page_offset(offset) == o,
        limit is None ==> page_limit(limit) == DEFAULT_PAGE_SIZE,
        forall|l: i64| limit == Some(l) && l < 1 ==> page_limit(limit) == 1,
        forall|l: i64| limit == Some(l) && l > MAX_PAGE_SIZE ==> page_limit(limit) == MAX_PAGE_SIZE,
        forall|o: i64| offset == Some(o) && o < 0 ==> page_offset(offset) == 0,
        offset is None ==> page_offset(offset) == 0,
        DEFAULT_PAGE_SIZE == 50 && MAX_PAGE_SIZE == 100,
{
}

/// Lets only members of a chat read or post in it.
pub fn require_member(is_member: bool) -> (checked: Result<(), AppError>)
    ensures
        is_member ==> checked is Ok,
        !is_member ==> (checked matches Err(AppError::InvalidInput(msg)) && msg@
            == "You are not a member of this chat."@),
{
    if !is_member {
        return Err(AppError::InvalidInput(String::from_str("You are not a member of this chat.")));
    }
    Ok(())
}

/// Decides a deletion request once the message has been looked up: a
/// missing message is `NotFound`; an already deleted one, or one that the
/// user did not send, is `Unauthorized`.
pub fn check_deletion(message: Option<&Message>, current_user_id: u128) -> (checked: Result<(), AppError>)
    ensures
        message is None ==> checked matches Err(AppError::NotFound),
        message matches Some(m) ==> (m.deleted_at is Some ==> checked matches Err(AppError::Unauthorized)),
        message matches Some(m) ==> (m.deleted_at is None && m.sender_id != Some(current_user_id)
            ==> checked matches Err(AppError::Unauthorized)),
        checked is Ok <==> (message matches Some(m) && m.deleted_at is None && m.sender_id == Some(
            current_user_id,
        )),
{
    let m = match message {
        Some(m) => m,
        None => return Err(AppError::NotFound),
    };
    if m.deleted_at.is_some() {
        return Err(AppError::Unauthorized);
    }
    match m.sender_id {
        Some(sender) => if sender != current_user_id {
            return Err(AppError::Unauthorized);
        },
        None => return Err(AppError::Unauthorized),
    }
    Ok(())
}

} // verus!
