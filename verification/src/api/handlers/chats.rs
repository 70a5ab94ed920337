use vstd::prelude::*;

use crate::error::AppError;
use crate::middleware::auth::CurrentUser;
use crate::validation::{
    char_count_within, check_char_count, has_entry, single_field, ErrorView, FieldErrorsView, Validate,
    ValidationError, ValidationErrors,
};

verus! {

/// The body of a request for a private chat with another user.
#[derive(Debug, Clone, Copy, PartialEq, Eq)]
pub struct CreatePrivateChatReq {
    pub target_user_id: u128,
}

/// The body of a request for a new group chat.
#[derive(Debug, Clone, PartialEq, Eq)]
pub struct CreateGroupChatReq {
    pub title: String,
    pub members: Vec<u128>,
}

/// Whether a character has the Unicode `White_Space` property, by which
/// `str::trim` and `char::is_whitespace` go: the 25 code points listed for it
/// in the Unicode Character Database (`PropList.txt`).
pub open spec fn is_white_space(c: char) -> bool {
    ('\u{9}' <= c <= '\u{D}') || c == ' ' || c == '\u{85}' || c == '\u{A0}' || c == '\u{1680}'
        || ('\u{2000}' <= c <= '\u{200A}') || c == '\u{2028}' || c == '\u{2029}' || c == '\u{202F}'
        || c == '\u{205F}' || c == '\u{3000}'
}

/// A text without its leading white space.
pub open spec fn trim_start_spec(text: Seq<char>) -> Seq<char>
    decreases text.len(),
{
    if text.len() > 0 && is_white_space(text[0]) {
        trim_start_spec(text.drop_first())
    } else {
        text
    }
}

/// A text without its trailing white space.
pub open spec fn trim_end_spec(text: Seq<char>) -> Seq<char>
    decreases text.len(),
{
    if text.len() > 0 && is_white_space(text.last()) {
        trim_end_spec(text.drop_last())
    } else {
        text
    }
}

/// What `str::trim` leaves of a text: leading and trailing white space removed.
pub open spec fn trimmed(text: Seq<char>) -> Seq<char> {
    trim_end_spec(trim_start_spec(text))
}

/// Whether every character of a text is white space.
pub open spec fn is_blank(text: Seq<char>) -> bool {
    forall|i: int| 0 <= i < text.len() ==> is_white_space(#[trigger] text[i])
}

/// `str::trim`: the text with leading and trailing white space removed, as
/// its documentation states ("whitespace" in the sense of `White_Space`).
#[verifier::external_body]
fn trim_text(text: &str) -> (t: &str)
    ensures
        t@ == trimmed(text@),
{
    text.trim()
}

proof fn lemma_trim_end_empty(text: Seq<char>)
    ensures
        trim_end_spec(text).len() == 0 <==> is_blank(text),
    decreases text.len(),
{
    if text.len() > 0 {
        lemma_trim_end_empty(text.drop_last());
        if is_white_space(text.last()) {
            if is_blank(text.drop_last()) {
                assert forall|i: int| 0 <= i < text.len() implies is_white_space(#[trigger] text[i]) by {
                    if i < text.len() - 1 {
                        assert(text.drop_last()[i] == text[i]);
                    }
                }
            } else {
                let i = choose|i: int| 0 <= i < text.drop_last().len() && !is_white_space(#[trigger] text.drop_last()[i]);
                assert(text[i] == text.drop_last()[i]);
            }
        } else {
            assert(!is_white_space(text[text.len() - 1]));
        }
    }
}

proof fn lemma_trim_start_empty(text: Seq<char>)
    ensures
        trim_start_spec(text).len() == 0 <==> is_blank(text),
        is_blank(trim_start_spec(text)) ==> trim_start_spec(text).len() == 0,
    decreases text.len(),
{
    if text.len() > 0 {
        lemma_trim_start_empty(text.drop_first());
        if is_white_space(text[0]) {
            if is_blank(text.drop_first()) {
                assert forall|i: int| 0 <= i < text.len() implies is_white_space(#[trigger] text[i]) by {
                    if i > 0 {
                        assert(text.drop_first()[i - 1] == text[i]);
                    }
                }
            } else {
                let i = choose|i: int| 0 <= i < text.drop_first().len() && !is_white_space(#[trigger] text.drop_first()[i]);
                assert(text[i + 1] == text.drop_first()[i]);
            }
        } else {
            assert(!is_white_space(trim_start_spec(text)[0]));
        }
    }
}

/// A text trims to nothing exactly when every character of it is white space.
pub proof fn trimmed_is_empty_iff_blank(text: Seq<char>)
    ensures
        trimmed(text).len() == 0 <==> is_blank(text),
{
    lemma_trim_start_empty(text);
    lemma_trim_end_empty(trim_start_spec(text));
}

/// The rules on a group chat request: a title of 3 to 100 characters and at
/// least one member.
pub open spec fn group_chat_request_rules(title: Seq<char>, member_count: nat) -> Seq<FieldErrorsView> {
    (if char_count_within(title, 3, Some(100)) {
        Seq::empty()
    } else {
        single_field(
            "title"@,
            ErrorView {
                code: "length"@,
                message: Some("Title must be between 3 and 100 characters."@),
            },
        )
    }) + (if member_count >= 1 {
        Seq::empty()
    } else {
        single_field(
            "members"@,
            ErrorView { code: "length"@, message: Some("At least one member os required"@) },
        )
    })
}

impl Validate for CreateGroupChatReq {
    open spec fn broken_rules(&self) -> Seq<FieldErrorsView> {
        group_chat_request_rules(self.title@, self.members@.len())
    }

    /// The title must hold 3 to 100 characters, and at least one member must be listed.
    fn validate(&self) -> (outcome: Result<(), ValidationErrors>) {
        let mut errors = ValidationErrors::new();
        proof {
            reveal_strlit("title");
            reveal_strlit("members");
        }
        if !check_char_count(self.title.as_str(), 3, Some(100)) {
            errors.add_field(
                "title",
                ValidationError::new("length").with_message(
                    "Title must be between 3 and 100 characters.",
                ),
            );
        }
        assert(!has_entry(errors@, "members"@)) by {
            assert("title"@.len() != "members"@.len());
        }
        if self.members.len() < 1 {
            errors.add_field(
                "members",
                ValidationError::new("length").with_message("At least one member os required"),
            );
        }
        assert(errors@ =~= group_chat_request_rules(self.title@, self.members@.len()));
        if errors.is_empty() {
            Ok(())
        } else {
            Err(errors)
        }
    }
}

/// A group chat request is valid exactly when its title has 3 to 100
/// characters and it lists at least one member; the title is reported exactly
/// when its length is outside 3..=100, whatever its length within it, and the
/// members exactly when none is listed.
pub proof fn group_chat_request_law(req: CreateGroupChatReq)
    ensures
        req.broken_rules().len() == 0 <==> (3 <= req.title@.len() <= 100 && req.members@.len() >= 1),
        has_entry(req.broken_rules(), "title"@) <==> !(3 <= req.title@.len() <= 100),
        has_entry(req.broken_rules(), "members"@) <==> req.members@.len() == 0,
{
    reveal_strlit("title");
    reveal_strlit("members");
    let rules = req.broken_rules();
    let title_ok = 3 <= req.title@.len() <= 100;
    let members_ok = req.members@.len() >= 1;
    if !title_ok {
        assert(rules[0].field == "title"@);
    }
    if !members_ok {
        let last = rules.len() - 1;
        assert(rules[last].field == "members"@);
    }
    if has_entry(rules, "title"@) {
        let i = choose|i: int| 0 <= i < rules.len() && (#[trigger] rules[i]).field == "title"@;
        if title_ok {
            assert(rules[i].field == "members"@);
            assert("title"@.len() != "members"@.len());
        }
    }
    if has_entry(rules, "members"@) {
        let i = choose|i: int| 0 <= i < rules.len() && (#[trigger] rules[i]).field == "members"@;
        if members_ok {
            assert(rules[i].field == "title"@);
            assert("title"@.len() != "members"@.len());
        }
    }
}

/// Refuses a private chat of a user with themselves.
pub fn check_private_chat(current_user: &CurrentUser, payload: &CreatePrivateChatReq) -> (checked:
    Result<(), AppError>)
    ensures
        current_user.id == payload.target_user_id ==> (checked matches Err(AppError::InvalidInput(msg))
            && msg@ == "Cannot create chat with yourself"@),
        current_user.id != payload.target_user_id ==> checked is Ok,
{
    if current_user.id == payload.target_user_id {
        return Err(AppError::InvalidInput(String::from_str("Cannot create chat with yourself")));
    }
    Ok(())
}

/// Refuses a group chat whose title is blank (empty once trimmed, that is,
/// made of white space only).
pub fn check_group_chat(payload: &CreateGroupChatReq) -> (checked: Result<(), AppError>)
    ensures
        is_blank(payload.title@) ==> (checked matches Err(AppError::InvalidInput(msg)) && msg@
            == "Title cannot be empty"@),
        !is_blank(payload.title@) ==> checked is Ok,
{
    proof {
        trimmed_is_empty_iff_blank(payload.title@);
    }
    if trim_text(payload.title.as_str()).is_empty() {
        return Err(AppError::InvalidInput(String::from_str("Title cannot be empty")));
    }
    Ok(())
}

} // verus!
