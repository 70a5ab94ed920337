use vstd::prelude::*;

use crate::domain::models::{ChatMember, MemberRole};
use crate::ids::{is_random_uuid, new_id};

verus! {

/// The members of a private chat in stored order: the smaller id first.
pub open spec fn ordered_pair(user1: u128, user2: u128) -> (u128, u128) {
    if user1 < user2 {
        (user1, user2)
    } else {
        (user2, user1)
    }
}

/// Sorts the two ids of a private chat, so that a chat between two users is
/// found whichever of them asks for it.
pub fn private_chat_members(user1: u128, user2: u128) -> (pair: (u128, u128))
    ensures
        pair == ordered_pair(user1, user2),
{
    if user1 < user2 {
        (user1, user2)
    } else {
        (user2, user1)
    }
}

/// The membership rows of a private chat: both users as plain members, the
/// smaller id first.
pub open spec fn private_chat_rows(chat_id: u128, user1: u128, user2: u128) -> Seq<ChatMember> {
    let (a, b) = ordered_pair(user1, user2);
    seq![
        ChatMember { chat_id, user_id: a, role: MemberRole::Member },
        ChatMember { chat_id, user_id: b, role: MemberRole::Member },
    ]
}

/// A new private chat of two users: a fresh random id and its membership
/// rows, both users as plain members, the smaller id first. The id is drawn
/// anew (a random, version 4, UUID), not made from the members' ids.
pub fn new_private_chat(user1: u128, user2: u128) -> (chat: (u128, Vec<ChatMember>))
    ensures
        chat.1@ == private_chat_rows(chat.0, user1, user2),
        is_random_uuid(chat.0),
{
    let chat_id = new_id();
    let (a, b) = private_chat_members(user1, user2);
    let mut rows: Vec<ChatMember> = Vec::new();
    rows.push(ChatMember { chat_id, user_id: a, role: MemberRole::Member });
    rows.push(ChatMember { chat_id, user_id: b, role: MemberRole::Member });
    assert(rows@ =~= private_chat_rows(chat_id, user1, user2));
    (chat_id, rows)
}

/// The stored pair of a private chat does not depend on who asks, and holds
/// both users, the smaller id first.
pub proof fn private_chat_pair_is_symmetric(user1: u128, user2: u128)
    ensures
        ordered_pair(user1, user2) == ordered_pair(user2, user1),
        ordered_pair(user1, user2).0 <= ordered_pair(user1, user2).1,
        ({
            let p = ordered_pair(user1, user2);
            (p.0 == user1 && p.1 == user2) || (p.0 == user2 && p.1 == user1)
        }),
{
}

/// The invited members of a group chat, in the order given, leaving out the
/// creator wherever the list names them.
pub open spec fn invited_members(creator: u128, members: Seq<u128>) -> Seq<u128>
    decreases members.len(),
{
    if members.len() == 0 {
        Seq::empty()
    } else {
        let rest = invited_members(creator, members.drop_last());
        if members.last() == creator {
            rest
        } else {
            rest.push(members.last())
        }
    }
}

/// The membership rows of a new group chat: the creator as administrator,
/// then each invited member as a plain member.
pub open spec fn group_chat_rows(chat_id: u128, creator: u128, members: Seq<u128>) -> Seq<ChatMember> {
    seq![ChatMember { chat_id, user_id: creator, role: MemberRole::Admin }] + invited_members(
        creator,
        members,
    ).map_values(|m: u128| ChatMember { chat_id, user_id: m, role: MemberRole::Member })
}

/// The membership rows to insert for a new group chat: the creator as
/// administrator, then every listed member as a plain member, skipping the
/// creator if they listed themselves.
pub fn group_chat_memberships(chat_id: u128, creator: u128, members: &Vec<u128>) -> (rows: Vec<ChatMember>)
    ensures
        rows@ == group_chat_rows(chat_id, creator, members@),
{
    let mut rows: Vec<ChatMember> = Vec::new();
    rows.push(ChatMember { chat_id, user_id: creator, role: MemberRole::Admin });
    let n = members.len();
    let ghost f = |m: u128| ChatMember { chat_id, user_id: m, role: MemberRole::Member };
    assert(members@.take(0) =~= Seq::<u128>::empty());
    for i in 0..n
        invariant
            n == members@.len(),
            f == (|m: u128| ChatMember { chat_id, user_id: m, role: MemberRole::Member }),
            rows@ =~= seq![ChatMember { chat_id, user_id: creator, role: MemberRole::Admin }]
                + invited_members(creator, members@.take(i as int)).map_values(f),
    {
        let m = members[i];
        assert(members@.take(i + 1).drop_last() =~= members@.take(i as int));
        assert(members@.take(i + 1).last() == m);
        if m != creator {
            rows.push(ChatMember { chat_id, user_id: m, role: MemberRole::Member });
            assert(invited_members(creator, members@.take(i + 1)) == invited_members(
                creator,
                members@.take(i as int),
            ).push(m));
            assert(invited_members(creator, members@.take(i + 1)).map_values(f) =~= invited_members(
                creator,
                members@.take(i as int),
            ).map_values(f).push(f(m)));
        }
    }
    assert(members@.take(n as int) =~= members@);
    rows
}

/// A new group chat: a fresh random id and its membership rows, the creator
/// as administrator and every other listed member as a plain member.
pub fn new_group_chat(creator: u128, members: &Vec<u128>) -> (chat: (u128, Vec<ChatMember>))
    ensures
        chat.1@ == group_chat_rows(chat.0, creator, members@),
        is_random_uuid(chat.0),
{
    let chat_id = new_id();
    let rows = group_chat_memberships(chat_id, creator, members);
    (chat_id, rows)
}

/// Every invited member is a listed member other than the creator, and every
/// listed member other than the creator is invited.
pub proof fn invited_members_are_the_others(creator: u128, members: Seq<u128>)
    ensures
        forall|k: int|
            0 <= k < invited_members(creator, members).len() ==> {
                let m = #[trigger] invited_members(creator, members)[k];
                m != creator && members.contains(m)
            },
        forall|m: u128|
            members.contains(m) && m != creator ==> #[trigger] invited_members(
                creator,
                members,
            ).contains(m),
    decreases members.len(),
{
    if members.len() > 0 {
        let init = members.drop_last();
        invited_members_are_the_others(creator, init);
        let rest = invited_members(creator, init);
        assert forall|k: int|
            0 <= k < invited_members(creator, members).len() implies {
            let m = #[trigger] invited_members(creator, members)[k];
            m != creator && members.contains(m)
        } by {
            if k < rest.len() {
                let m = rest[k];
                let j = choose|j: int| 0 <= j < init.len() && init[j] == m;
                assert(members[j] == m);
            } else {
                assert(members[members.len() - 1] == members.last());
            }
        }
        assert forall|m: u128| members.contains(m) && m != creator implies #[trigger] invited_members(
            creator,
            members,
        ).contains(m) by {
            let j = choose|j: int| 0 <= j < members.len() && members[j] == m;
            if j < members.len() - 1 {
                assert(init[j] == m);
                assert(init.contains(m));
                assert(rest.contains(m));
                let k = choose|k: int| 0 <= k < rest.len() && rest[k] == m;
                if members.last() != creator {
                    assert(rest.push(members.last())[k] == m);
                }
            } else {
                assert(rest.push(members.last())[rest.len() as int] == m);
            }
        }
    }
}

/// A new group chat has exactly one administrator, its creator, in the first
/// row; every other row makes a listed member other than the creator a plain
/// member; and every listed member other than the creator gets a row.
pub proof fn group_chat_rows_law(chat_id: u128, creator: u128, members: Seq<u128>)
    ensures
        ({
            let rows = group_chat_rows(chat_id, creator, members);
            &&& rows.len() >= 1
            &&& rows[0] == ChatMember { chat_id, user_id: creator, role: MemberRole::Admin }
            &&& forall|k: int|
                1 <= k < rows.len() ==> {
                    &&& (#[trigger] rows[k]).role == MemberRole::Member
                    &&& rows[k].chat_id == chat_id
                    &&& rows[k].user_id != creator
                    &&& members.contains(rows[k].user_id)
                }
            &&& forall|m: u128|
                #![trigger members.contains(m)]
                members.contains(m) && m != creator ==> exists|k: int|
                    1 <= k < rows.len() && (#[trigger] rows[k]).user_id == m
        }),
{
    invited_members_are_the_others(creator, members);
    let rows = group_chat_rows(chat_id, creator, members);
    let inv = invited_members(creator, members);
    assert forall|k: int| 1 <= k < rows.len() implies {
        &&& (#[trigger] rows[k]).role == MemberRole::Member
        &&& rows[k].chat_id == chat_id
        &&& rows[k].user_id != creator
        &&& members.contains(rows[k].user_id)
    } by {
        assert(rows[k].user_id == inv[k - 1]);
    }
    assert forall|m: u128| #![trigger members.contains(m)] members.contains(m) && m != creator implies exists|k: int|
        1 <= k < rows.len() && (#[trigger] rows[k]).user_id == m by {
        assert(inv.contains(m));
        let j = choose|j: int| 0 <= j < inv.len() && inv[j] == m;
        assert(rows[j + 1].user_id == m);
    }
}

} // verus!
