use vstd::prelude::*;

verus! {

/// The query of a websocket upgrade: the access token.
#[derive(Debug, Clone, PartialEq, Eq)]
pub struct WebSocketQuery {
    pub token: String,
}

/// A message a client sends over the websocket.
#[derive(Debug, Clone, PartialEq, Eq)]
pub struct WebSocketMessage {
    pub chat_id: u128,
    pub content: String,
}

/// Where the relay of one incoming websocket message stands.
#[derive(Debug, Clone, PartialEq, Eq)]
pub enum Relay {
    /// Waiting to learn whether the sender belongs to the chat.
    AwaitingMembership,
    /// Waiting for the message to be stored.
    AwaitingSave,
    /// Waiting for the list of the chat's members.
    AwaitingMembers,
    /// Waiting for the stored message to be encoded for sending.
    AwaitingEncoding { members: Vec<u128> },
    /// Nothing more to do.
    Done,
}

/// What the outside world reports back to the relay.
#[derive(Debug, Clone, PartialEq, Eq)]
pub enum RelayEvent {
    /// The membership look-up answered (`None` when it failed).
    MembershipChecked(Option<bool>),
    /// Storing the message succeeded or failed.
    Saved(bool),
    /// The member list arrived (`None` when the look-up failed).
    MembersLoaded(Option<Vec<u128>>),
    /// Encoding the stored message succeeded or failed.
    Encoded(bool),
}

/// Why a relay stops without delivering.
#[derive(Debug, Clone, Copy, PartialEq, Eq)]
pub enum StopReason {
    NotMember,
    SaveFailed,
    MembersUnavailable,
    EncodingFailed,
    UnexpectedEvent,
}

/// What the relay asks the outside world to do next.
#[derive(Debug, Clone, PartialEq, Eq)]
pub enum RelayAction {
    SaveMessage,
    LoadMembers,
    Encode,
    /// Send the encoded message to each of these users that has an open connection.
    Deliver { members: Vec<u128> },
    Stop(StopReason),
}

/// One step of the relay: the next state and what to do.
pub open spec fn relay_step(state: Relay, event: RelayEvent) -> (Relay, RelayAction) {
    match (state, event) {
        (Relay::AwaitingMembership, RelayEvent::MembershipChecked(Some(true))) => (
            Relay::AwaitingSave,
            RelayAction::SaveMessage,
        ),
        (Relay::AwaitingMembership, RelayEvent::MembershipChecked(_)) => (
            Relay::Done,
            RelayAction::Stop(StopReason::NotMember),
        ),
        (Relay::AwaitingSave, RelayEvent::Saved(true)) => (
            Relay::AwaitingMembers,
            RelayAction::LoadMembers,
        ),
        (Relay::AwaitingSave, RelayEvent::Saved(false)) => (
            Relay::Done,
            RelayAction::Stop(StopReason::SaveFailed),
        ),
        (Relay::AwaitingMembers, RelayEvent::MembersLoaded(Some(members))) => (
            Relay::AwaitingEncoding { members },
            RelayAction::Encode,
        ),
        (Relay::AwaitingMembers, RelayEvent::MembersLoaded(None)) => (
            Relay::Done,
            RelayAction::Stop(StopReason::MembersUnavailable),
        ),
        (Relay::AwaitingEncoding { members }, RelayEvent::Encoded(true)) => (
            Relay::Done,
            RelayAction::Deliver { members },
        ),
        (Relay::AwaitingEncoding { .. }, RelayEvent::Encoded(false)) => (
            Relay::Done,
            RelayAction::Stop(StopReason::EncodingFailed),
        ),
        _ => (Relay::Done, RelayAction::Stop(StopReason::UnexpectedEvent)),
    }
}

impl Relay {
    /// A relay for a message just read from the socket: it starts by checking
    /// that the sender belongs to the chat.
    pub fn start() -> (r: Relay)
        ensures
            r == Relay::AwaitingMembership,
    {
        Relay::AwaitingMembership
    }

    /// Takes one step: a sender who is not a member (or whose membership
    /// cannot be checked), a failed save, an unavailable member list or a
    /// failed encoding stops the relay; otherwise it goes on to store the
    /// message, load the members, encode, and deliver to the members.
    pub fn step(self, event: RelayEvent) -> (next: (Relay, RelayAction))
        ensures
            next == relay_step(self, event),
    {
        match (self, event) {
            (Relay::AwaitingMembership, RelayEvent::MembershipChecked(Some(true))) => (
                Relay::AwaitingSave,
                RelayAction::SaveMessage,
            ),
            (Relay::AwaitingMembership, RelayEvent::MembershipChecked(_)) => (
                Relay::Done,
                RelayAction::Stop(StopReason::NotMember),
            ),
            (Relay::AwaitingSave, RelayEvent::Saved(true)) => (
                Relay::AwaitingMembers,
                RelayAction::LoadMembers,
            ),
            (Relay::AwaitingSave, RelayEvent::Saved(false)) => (
                Relay::Done,
                RelayAction::Stop(StopReason::SaveFailed),
            ),
            (Relay::AwaitingMembers, RelayEvent::MembersLoaded(Some(members))) => (
                Relay::AwaitingEncoding { members },
                RelayAction::Encode,
            ),
            (Relay::AwaitingMembers, RelayEvent::MembersLoaded(None)) => (
                Relay::Done,
                RelayAction::Stop(StopReason::MembersUnavailable),
            ),
            (Relay::AwaitingEncoding { members }, RelayEvent::Encoded(true)) => (
                Relay::Done,
                RelayAction::Deliver { members },
            ),
            (Relay::AwaitingEncoding { .. }, RelayEvent::Encoded(false)) => (
                Relay::Done,
                RelayAction::Stop(StopReason::EncodingFailed),
            ),
            _ => (Relay::Done, RelayAction::Stop(StopReason::UnexpectedEvent)),
        }
    }
}

/// The state and actions after a run of events from the start.
pub open spec fn relay_run(events: Seq<RelayEvent>) -> (Relay, Seq<RelayAction>)
    decreases events.len(),
{
    if events.len() == 0 {
        (Relay::AwaitingMembership, Seq::empty())
    } else {
        let (s, acts) = relay_run(events.drop_last());
        let (s2, a) = relay_step(s, events.last());
        (s2, acts.push(a))
    }
}

/// A message is stored only after its sender was confirmed a member, and
/// delivered only after it was stored: in every run of events, a save is asked
/// for only right after a positive membership answer, and a delivery only right
/// after an encoding, itself possible only once the message was saved.
pub proof fn relay_delivers_only_saved_messages_of_members(events: Seq<RelayEvent>)
    ensures
        forall|k: int|
            #![trigger relay_run(events).1[k]]
            0 <= k < relay_run(events).1.len() ==> {
                &&& relay_run(events).1[k] == RelayAction::SaveMessage ==> events[k]
                    == RelayEvent::MembershipChecked(Some(true))
                &&& relay_run(events).1[k] is Deliver ==> (exists|j: int, i: int|
                    #![trigger events[i], events[j]]
                    0 <= i < j < k && events[i] == RelayEvent::MembershipChecked(Some(true))
                        && events[j] == RelayEvent::Saved(true))
            },
        relay_run(events).1.len() == events.len(),
        relay_run(events).0 is AwaitingSave ==> exists|i: int|
            0 <= i < events.len() && #[trigger] events[i] == RelayEvent::MembershipChecked(Some(true)),
        relay_run(events).0 is AwaitingMembers ==> exists|j: int, i: int|
            #![trigger events[i], events[j]]
            0 <= i < j < events.len() && events[i] == RelayEvent::MembershipChecked(Some(true))
                && events[j] == RelayEvent::Saved(true),
        relay_run(events).0 is AwaitingEncoding ==> exists|j: int, i: int|
            #![trigger events[i], events[j]]
            0 <= i < j < events.len() && events[i] == RelayEvent::MembershipChecked(Some(true))
                && events[j] == RelayEvent::Saved(true),
    decreases events.len(),
{
    if events.len() > 0 {
        let init = events.drop_last();
        relay_delivers_only_saved_messages_of_members(init);
        let (s, acts) = relay_run(init);
        let e = events.last();
        let n = init.len() as int;
        assert(events[n] == e);
        assert forall|k: int| 0 <= k < n implies events[k] == init[k] by {}
        assert forall|k: int|
            #![trigger relay_run(events).1[k]]
            0 <= k < relay_run(events).1.len() implies {
                &&& relay_run(events).1[k] == RelayAction::SaveMessage ==> events[k]
                    == RelayEvent::MembershipChecked(Some(true))
                &&& relay_run(events).1[k] is Deliver ==> (exists|j: int, i: int|
                    #![trigger events[i], events[j]]
                    0 <= i < j < k && events[i] == RelayEvent::MembershipChecked(Some(true))
                        && events[j] == RelayEvent::Saved(true))
            } by {
            if k < n {
                assert(relay_run(events).1[k] == acts[k]);
                assert(acts[k] == relay_run(init).1[k]);
                if acts[k] is Deliver {
                    let (j, i) = choose|j: int, i: int|
                        #![trigger init[i], init[j]]
                        0 <= i < j < k && init[i] == RelayEvent::MembershipChecked(Some(true))
                            && init[j] == RelayEvent::Saved(true);
                    assert(events[i] == init[i] && events[j] == init[j]);
                }
            } else {
                if s is AwaitingEncoding {
                    let (j, i) = choose|j: int, i: int|
                        #![trigger init[i], init[j]]
                        0 <= i < j < init.len() && init[i] == RelayEvent::MembershipChecked(Some(true))
                            && init[j] == RelayEvent::Saved(true);
                    assert(events[i] == init[i] && events[j] == init[j]);
                }
            }
        }
        if s is AwaitingMembership {
            if relay_run(events).0 is AwaitingSave {
                assert(events[n] == RelayEvent::MembershipChecked(Some(true)));
            }
        }
        if s is AwaitingSave {
            let i = choose|i: int| 0 <= i < init.len() && #[trigger] init[i] == RelayEvent::MembershipChecked(Some(true));
            assert(events[i] == init[i]);
            if relay_run(events).0 is AwaitingMembers {
                assert(events[n] == RelayEvent::Saved(true));
            }
        }
        if s is AwaitingMembers {
            let (j, i) = choose|j: int, i: int|
                #![trigger init[i], init[j]]
                0 <= i < j < init.len() && init[i] == RelayEvent::MembershipChecked(Some(true))
                    && init[j] == RelayEvent::Saved(true);
            assert(events[i] == init[i] && events[j] == init[j]);
        }
        if s is AwaitingEncoding {
            let (j, i) = choose|j: int, i: int|
                #![trigger init[i], init[j]]
                0 <= i < j < init.len() && init[i] == RelayEvent::MembershipChecked(Some(true))
                    && init[j] == RelayEvent::Saved(true);
            assert(events[i] == init[i] && events[j] == init[j]);
        }
    }
}

/// A stored message reaches every member of its chat, whatever their number:
/// once the member list arrives the relay encodes for exactly that list, a
/// successful encoding delivers to exactly that list, and the whole run from a
/// confirmed membership through the save, the member list and the encoding
/// asks for each of these steps in turn and ends by delivering to the list.
pub proof fn relay_delivers_to_every_member(members: Vec<u128>)
    ensures
        relay_step(Relay::AwaitingMembers, RelayEvent::MembersLoaded(Some(members))) == (
            Relay::AwaitingEncoding { members },
            RelayAction::Encode,
        ),
        relay_step(Relay::AwaitingEncoding { members }, RelayEvent::Encoded(true)) == (
            Relay::Done,
            RelayAction::Deliver { members },
        ),
        relay_run(
            seq![
                RelayEvent::MembershipChecked(Some(true)),
                RelayEvent::Saved(true),
                RelayEvent::MembersLoaded(Some(members)),
                RelayEvent::Encoded(true),
            ],
        ) == (
            Relay::Done,
            seq![
                RelayAction::SaveMessage,
                RelayAction::LoadMembers,
                RelayAction::Encode,
                RelayAction::Deliver { members },
            ],
        ),
{
    let e1 = RelayEvent::MembershipChecked(Some(true));
    let e2 = RelayEvent::Saved(true);
    let e3 = RelayEvent::MembersLoaded(Some(members));
    let e4 = RelayEvent::Encoded(true);
    let run4 = seq![e1, e2, e3, e4];
    assert(run4.drop_last() =~= seq![e1, e2, e3]);
    assert(seq![e1, e2, e3].drop_last() =~= seq![e1, e2]);
    assert(seq![e1, e2].drop_last() =~= seq![e1]);
    assert(seq![e1].drop_last() =~= Seq::<RelayEvent>::empty());
    assert(relay_run(Seq::<RelayEvent>::empty()) == (Relay::AwaitingMembership, Seq::<RelayAction>::empty()));
    assert(relay_run(seq![e1]) == (Relay::AwaitingSave, seq![RelayAction::SaveMessage])) by {
        assert(relay_run(seq![e1].drop_last()) == (Relay::AwaitingMembership, Seq::<RelayAction>::empty()));
        assert(Seq::<RelayAction>::empty().push(RelayAction::SaveMessage) =~= seq![RelayAction::SaveMessage]);
    }
    assert(relay_run(seq![e1, e2]) == (
        Relay::AwaitingMembers,
        seq![RelayAction::SaveMessage, RelayAction::LoadMembers],
    )) by {
        assert(seq![RelayAction::SaveMessage].push(RelayAction::LoadMembers) =~= seq![
            RelayAction::SaveMessage,
            RelayAction::LoadMembers,
        ]);
    }
    assert(relay_run(seq![e1, e2, e3]) == (
        Relay::AwaitingEncoding { members },
        seq![RelayAction::SaveMessage, RelayAction::LoadMembers, RelayAction::Encode],
    )) by {
        assert(seq![RelayAction::SaveMessage, RelayAction::LoadMembers].push(RelayAction::Encode)
            =~= seq![RelayAction::SaveMessage, RelayAction::LoadMembers, RelayAction::Encode]);
    }
    assert(seq![RelayAction::SaveMessage, RelayAction::LoadMembers, RelayAction::Encode].push(
        RelayAction::Deliver { members },
    ) =~= seq![
        RelayAction::SaveMessage,
        RelayAction::LoadMembers,
        RelayAction::Encode,
        RelayAction::Deliver { members },
    ]);
}

} // verus!
