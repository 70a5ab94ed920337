use chat_backend::api::handlers::chats::{
    check_group_chat, check_private_chat, CreateGroupChatReq, CreatePrivateChatReq,
};
use chat_backend::api::handlers::messages::{check_deletion, require_member, GetMessagesQuery};
use chat_backend::domain::membership::{
    group_chat_memberships, new_group_chat, new_private_chat, private_chat_members,
};
use chat_backend::domain::models::{ChatMember, ChatType, MemberRole, Message};
use chat_backend::error::AppError;
use chat_backend::middleware::auth::CurrentUser;

#[test]
fn error_responses() {
    let cases = vec![
        (AppError::InvalidInput("bad title".to_string()), 400, "bad title"),
        (AppError::NotFound, 404, "The resource was not found"),
        (AppError::Unauthorized, 401, "Unauthorized"),
        (AppError::InvalidCredentials, 401, "Invalid email or password"),
        (AppError::Internal("db down".to_string()), 500, "Внутренняя ошибка"),
    ];
    for (e, code, body) in cases {
        assert_eq!(e.status_code(), code);
        assert_eq!(e.public_body(), body);
    }
}

#[test]
fn internal_errors_hide_their_cause() {
    let a = AppError::Internal("connection refused".to_string());
    let b = AppError::Internal("secret table missing".to_string());
    assert_eq!(a.public_body(), b.public_body());
    assert_eq!(a.status_code(), b.status_code());
    assert!(!a.public_body().contains("connection"));
}

#[test]
fn chat_type_names_round_trip() {
    for t in [ChatType::Private, ChatType::Group, ChatType::Channel] {
        assert_eq!(ChatType::from_name(t.as_str()), Some(t));
    }
    assert_eq!(ChatType::Private.as_str(), "private");
    assert_eq!(ChatType::Group.as_str(), "group");
    assert_eq!(ChatType::Channel.as_str(), "channel");
    assert_eq!(ChatType::from_name("Private"), None);
    assert_eq!(ChatType::from_name(""), None);
}

#[test]
fn member_role_names_round_trip() {
    for r in [MemberRole::Admin, MemberRole::Moderator, MemberRole::Member] {
        assert_eq!(MemberRole::from_name(r.as_str()), Some(r));
    }
    assert_eq!(MemberRole::Admin.as_str(), "admin");
    assert_eq!(MemberRole::Moderator.as_str(), "moderator");
    assert_eq!(MemberRole::Member.as_str(), "member");
    assert_eq!(MemberRole::from_name("owner"), None);
}

#[test]
fn private_chat_pair_is_sorted_and_symmetric() {
    assert_eq!(private_chat_members(5, 3), (3, 5));
    assert_eq!(private_chat_members(3, 5), (3, 5));
    assert_eq!(private_chat_members(9, 9), (9, 9));
    let big = u128::MAX;
    assert_eq!(private_chat_members(big, 0), private_chat_members(0, big));
}

#[test]
fn group_chat_rows_make_creator_admin_and_skip_them_in_members() {
    let rows = group_chat_memberships(100, 1, &vec![2, 1, 3]);
    assert_eq!(
        rows,
        vec![
            ChatMember { chat_id: 100, user_id: 1, role: MemberRole::Admin },
            ChatMember { chat_id: 100, user_id: 2, role: MemberRole::Member },
            ChatMember { chat_id: 100, user_id: 3, role: MemberRole::Member },
        ]
    );
    let only_creator = group_chat_memberships(7, 4, &vec![4, 4]);
    assert_eq!(only_creator, vec![ChatMember { chat_id: 7, user_id: 4, role: MemberRole::Admin }]);
    let empty = group_chat_memberships(7, 4, &vec![]);
    assert_eq!(empty.len(), 1);
}

#[test]
fn pagination_defaults_and_bounds() {
    assert_eq!(GetMessagesQuery { limit: None, offset: None }.page(), (50, 0));
    assert_eq!(GetMessagesQuery { limit: Some(10), offset: Some(0) }.page(), (10, 0));
    assert_eq!(GetMessagesQuery { limit: Some(0), offset: Some(-5) }.page(), (1, 0));
    assert_eq!(GetMessagesQuery { limit: Some(500), offset: Some(7) }.page(), (100, 7));
    assert_eq!(GetMessagesQuery { limit: Some(i64::MIN), offset: Some(i64::MAX) }.page(), (1, i64::MAX));
    assert_eq!(GetMessagesQuery { limit: Some(100), offset: None }.page(), (100, 0));
}

#[test]
fn only_members_may_post() {
    assert_eq!(require_member(true), Ok(()));
    assert_eq!(
        require_member(false),
        Err(AppError::InvalidInput("You are not a member of this chat.".to_string()))
    );
}

fn message(sender: Option<u128>, deleted_at: Option<i64>) -> Message {
    Message {
        id: 1,
        chat_id: 2,
        sender_id: sender,
        content: "hi".to_string(),
        created_at: 10,
        updated_at: 10,
        deleted_at,
    }
}

#[test]
fn deletion_rules() {
    assert_eq!(check_deletion(None, 5), Err(AppError::NotFound));
    assert_eq!(check_deletion(Some(&message(Some(5), None)), 5), Ok(()));
    assert_eq!(check_deletion(Some(&message(Some(5), Some(20))), 5), Err(AppError::Unauthorized));
    assert_eq!(check_deletion(Some(&message(Some(6), None)), 5), Err(AppError::Unauthorized));
    assert_eq!(check_deletion(Some(&message(None, None)), 5), Err(AppError::Unauthorized));
}

#[test]
fn no_private_chat_with_oneself() {
    let me = CurrentUser { id: 42 };
    assert_eq!(
        check_private_chat(&me, &CreatePrivateChatReq { target_user_id: 42 }),
        Err(AppError::InvalidInput("Cannot create chat with yourself".to_string()))
    );
    assert_eq!(check_private_chat(&me, &CreatePrivateChatReq { target_user_id: 43 }), Ok(()));
}

#[test]
fn group_title_must_not_be_blank() {
    let blank = CreateGroupChatReq { title: " \t\n ".to_string(), members: vec![1] };
    assert_eq!(
        check_group_chat(&blank),
        Err(AppError::InvalidInput("Title cannot be empty".to_string()))
    );
    let empty = CreateGroupChatReq { title: String::new(), members: vec![1] };
    assert!(check_group_chat(&empty).is_err());
    let padded = CreateGroupChatReq { title: "  team  ".to_string(), members: vec![1] };
    assert_eq!(check_group_chat(&padded), Ok(()));
    let plain = CreateGroupChatReq { title: "abc".to_string(), members: vec![1] };
    assert_eq!(check_group_chat(&plain), Ok(()));
    let wide = CreateGroupChatReq { title: "\u{3000}\u{2028}\u{85}\u{A0}".to_string(), members: vec![1] };
    assert!(check_group_chat(&wide).is_err());
    let zero_width = CreateGroupChatReq { title: "\u{200B}".to_string(), members: vec![1] };
    assert_eq!(check_group_chat(&zero_width), Ok(()));
}

#[test]
fn new_chats_get_fresh_ids() {
    let (g1, rows1) = new_group_chat(1, &vec![2, 3]);
    let (g2, rows2) = new_group_chat(1, &vec![2, 3]);
    assert_ne!(g1, g2);
    assert_eq!(rows1, group_chat_memberships(g1, 1, &vec![2, 3]));
    assert_eq!(rows2.len(), 3);
    assert_eq!(uuid::Uuid::from_u128(g1).get_version_num(), 4);
    let (p, rows) = new_private_chat(9, 4);
    assert_eq!(
        rows,
        vec![
            ChatMember { chat_id: p, user_id: 4, role: MemberRole::Member },
            ChatMember { chat_id: p, user_id: 9, role: MemberRole::Member },
        ]
    );
}

#[test]
fn io_failures_are_internal() {
    let e = AppError::from_io_error(std::io::Error::new(std::io::ErrorKind::NotFound, "config.json missing"));
    assert_eq!(e, AppError::Internal("config.json missing".to_string()));
    assert_eq!(e.status_code(), 500);
}
