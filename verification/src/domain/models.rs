use vstd::prelude::*;

use crate::text::same_text;
use crate::validation::{
    check_char_count, char_count_within, has_entry, single_field, ErrorView, FieldErrorsView, Validate,
    ValidationError, ValidationErrors,
};

verus! {

/// The public face of a user.
///
/// Identifiers are UUIDs held as the `u128` whose big-endian bytes are the
/// UUID's bytes, so they compare as the UUIDs do.
#[derive(Debug, Clone, PartialEq, Eq)]
pub struct UserProfile {
    pub id: u128,
    pub username: String,
    pub bio: Option<String>,
}

/// A stored user. Times are microseconds since the Unix epoch (UTC).
#[derive(Debug, Clone, PartialEq, Eq)]
pub struct User {
    pub id: u128,
    pub username: String,
    pub email: String,
    pub created_at: i64,
    pub password_hash: String,
    pub bio: Option<String>,
}

/// The kinds of chat.
#[derive(Debug, Clone, Copy, PartialEq, Eq)]
pub enum ChatType {
    Private,
    Group,
    Channel,
}

/// The roles of a chat member.
#[derive(Debug, Clone, Copy, PartialEq, Eq)]
pub enum MemberRole {
    Admin,
    Moderator,
    Member,
}

/// A chat.
#[derive(Debug, Clone, PartialEq, Eq)]
pub struct Chat {
    pub id: u128,
    pub chat_type: ChatType,
    pub title: Option<String>,
}

/// The membership of a user in a chat.
#[derive(Debug, Clone, Copy, PartialEq, Eq)]
pub struct ChatMember {
    pub chat_id: u128,
    pub user_id: u128,
    pub role: MemberRole,
}

/// A chat message. Times are microseconds since the Unix epoch (UTC); a
/// deleted message keeps its row and carries the time of its deletion.
#[derive(Debug, Clone, PartialEq, Eq)]
pub struct Message {
    pub id: u128,
    pub chat_id: u128,
    pub sender_id: Option<u128>,
    pub content: String,
    pub created_at: i64,
    pub updated_at: i64,
    pub deleted_at: Option<i64>,
}

/// The body of a request that posts a message.
#[derive(Debug, Clone, PartialEq, Eq)]
pub struct SendMessageRequest {
    pub content: String,
}

/// The stored name of a chat type (`snake_case`).
pub open spec fn chat_type_name(t: ChatType) -> Seq<char> {
    match t {
        ChatType::Private => "private"@,
        ChatType::Group => "group"@,
        ChatType::Channel => "channel"@,
    }
}

/// The chat type stored under a name, if any.
pub open spec fn chat_type_named(name: Seq<char>) -> Option<ChatType> {
    if name == "private"@ {
        Some(ChatType::Private)
    } else if name == "group"@ {
        Some(ChatType::Group)
    } else if name == "channel"@ {
        Some(ChatType::Channel)
    } else {
        None
    }
}

/// The stored name of a member role (`snake_case`).
pub open spec fn member_role_name(r: MemberRole) -> Seq<char> {
    match r {
        MemberRole::Admin => "admin"@,
        MemberRole::Moderator => "moderator"@,
        MemberRole::Member => "member"@,
    }
}

/// The member role stored under a name, if any.
pub open spec fn member_role_named(name: Seq<char>) -> Option<MemberRole> {
    if name == "admin"@ {
        Some(MemberRole::Admin)
    } else if name == "moderator"@ {
        Some(MemberRole::Moderator)
    } else if name == "member"@ {
        Some(MemberRole::Member)
    } else {
        None
    }
}

impl ChatType {
    /// The name under which the chat type is stored and sent.
    pub fn as_str(&self) -> (name: &'static str)
        ensures
            name@ == chat_type_name(*self),
    {
        match self {
            ChatType::Private => "private",
            ChatType::Group => "group",
            ChatType::Channel => "channel",
        }
    }

    /// The chat type stored under `name`.
    pub fn from_name(name: &str) -> (t: Option<ChatType>)
        ensures
            t == chat_type_named(name@),
    {
        if same_text(name, "private") {
            Some(ChatType::Private)
        } else if same_text(name, "group") {
            Some(ChatType::Group)
        } else if same_text(name, "channel") {
            Some(ChatType::Channel)
        } else {
            None
        }
    }
}

impl MemberRole {
    /// The name under which the role is stored and sent.
    pub fn as_str(&self) -> (name: &'static str)
        ensures
            name@ == member_role_name(*self),
    {
        match self {
            MemberRole::Admin => "admin",
            MemberRole::Moderator => "moderator",
            MemberRole::Member => "member",
        }
    }

    /// The role stored under `name`.
    pub fn from_name(name: &str) -> (r: Option<MemberRole>)
        ensures
            r == member_role_named(name@),
    {
        if same_text(name, "admin") {
            Some(MemberRole::Admin)
        } else if same_text(name, "moderator") {
            Some(MemberRole::Moderator)
        } else if same_text(name, "member") {
            Some(MemberRole::Member)
        } else {
            None
        }
    }
}

/// A chat type is read back from its stored name.
pub proof fn chat_type_name_round_trip(t: ChatType)
    ensures
        chat_type_named(chat_type_name(t)) == Some(t),
{
    reveal_strlit("private");
    reveal_strlit("group");
    reveal_strlit("channel");
    assert("private"@[0] != "group"@[0]);
    assert("private"@[0] != "channel"@[0]);
    assert("group"@[0] != "channel"@[0]);
}

/// A member role is read back from its stored name.
pub proof fn member_role_name_round_trip(r: MemberRole)
    ensures
        member_role_named(member_role_name(r)) == Some(r),
{
    reveal_strlit("admin");
    reveal_strlit("moderator");
    reveal_strlit("member");
    assert("admin"@[0] != "moderator"@[0]);
    assert("admin"@[0] != "member"@[0]);
    assert("moderator"@.len() != "member"@.len());
}

/// The length rule on a message's content, as its `#[validate(length(..))]` states it.
pub open spec fn message_content_rule(content: Seq<char>) -> Seq<FieldErrorsView> {
    if char_count_within(content, 1, Some(32768)) {
        Seq::empty()
    } else {
        single_field(
            "content"@,
            ErrorView {
                code: "length"@,
                message: Some("The message must contain between 1 and 32,768 characters."@),
            },
        )
    }
}

/// A message is valid exactly when its content has 1 to 32 768 characters;
/// otherwise only the content is reported.
pub proof fn message_content_law(req: SendMessageRequest)
    ensures
        req.broken_rules().len() == 0 <==> 1 <= req.content@.len() <= 32768,
        req.broken_rules().len() != 0 ==> req.broken_rules().len() == 1 && req.broken_rules()[0].field
            == "content"@,
        has_entry(req.broken_rules(), "content"@) <==> !(1 <= req.content@.len() <= 32768),
{
    if !(1 <= req.content@.len() <= 32768) {
        assert(req.broken_rules()[0].field == "content"@);
    }
}

impl Validate for SendMessageRequest {
    open spec fn broken_rules(&self) -> Seq<FieldErrorsView> {
        message_content_rule(self.content@)
    }

    /// The content must hold between 1 and 32 768 characters.
    fn validate(&self) -> (outcome: Result<(), ValidationErrors>) {
        let mut errors = ValidationErrors::new();
        if !check_char_count(self.content.as_str(), 1, Some(32768)) {
            errors.add_field(
                "content",
                ValidationError::new("length").with_message(
                    "The message must contain between 1 and 32,768 characters.",
                ),
            );
        }
        if errors.is_empty() {
            Ok(())
        } else {
            Err(errors)
        }
    }
}

} // verus!
