//! Rooms shared with the owner: finding one, creating an encrypted one, and
//! answering messages in them.
use vstd::prelude::*;

verus! {

/// Whether a list of member IDs holds the given user.
pub fn has_member(members: &Vec<String>, user: &String) -> (found: bool)
    ensures
        found == members.deep_view().contains(user@),
{
    let mut i: usize = 0;
    while i < members.len()
        invariant
            i <= members.len(),
            forall|j: int| 0 <= j < i ==> members@[j]@ != user@,
        decreases members.len() - i,
    {
        if members[i] == *user {
            assert(members.deep_view()[i as int] == user@);
            return true;
        }
        i = i + 1;
    }
    assert forall|j: int| 0 <= j < members.deep_view().len() implies members.deep_view()[j] != user@ by {
        assert(members.deep_view()[j] == members@[j]@);
    }
    false
}

/// What one joined room tells the search for a room with the owner.
#[derive(Debug, Clone, Copy, PartialEq, Eq)]
pub enum RoomScan {
    /// The owner is a member: this is the room.
    Found,
    /// The owner is not a member, or the members could not be read: go on with
    /// the next room.
    Continue,
}

pub open spec fn scan_spec(members: Option<Seq<Seq<char>>>, owner: Seq<char>) -> RoomScan {
    match members {
        None => RoomScan::Continue,
        Some(m) => if m.contains(owner) {
            RoomScan::Found
        } else {
            RoomScan::Continue
        },
    }
}

/// Looks at the joined members of one room (`None` where reading them failed).
pub fn scan_room(members: Option<&Vec<String>>, owner: &String) -> (scan: RoomScan)
    ensures
        scan == scan_spec(
            match members {
                Some(m) => Some(m.deep_view()),
                None => None,
            },
            owner@,
        ),
{
    match members {
        None => RoomScan::Continue,
        Some(m) => if has_member(m, owner) {
            RoomScan::Found
        } else {
            RoomScan::Continue
        },
    }
}

/// The room the bot uses for the owner.
#[derive(Debug, Clone, Copy, PartialEq, Eq)]
pub enum RoomChoice {
    /// The direct-message room with the owner.
    Direct,
    /// The joined room at this position.
    Joined(usize),
}

/// The first joined room from `start` on that has the owner as a member; rooms
/// whose members could not be read are skipped.
pub open spec fn first_room_from(rooms: Seq<Option<Seq<Seq<char>>>>, owner: Seq<char>, start: int) -> Option<RoomChoice>
    decreases rooms.len() - start,
{
    if start < 0 || start >= rooms.len() {
        None
    } else {
        match scan_spec(rooms[start], owner) {
            RoomScan::Found => Some(RoomChoice::Joined(start as usize)),
            RoomScan::Continue => first_room_from(rooms, owner, start + 1),
        }
    }
}

/// The room with the owner: the direct-message room where there is one, else the
/// first joined room that has the owner as a member.
pub open spec fn room_with_owner(has_dm_room: bool, rooms: Seq<Option<Seq<Seq<char>>>>, owner: Seq<char>) -> Option<RoomChoice> {
    if has_dm_room {
        Some(RoomChoice::Direct)
    } else {
        first_room_from(rooms, owner, 0)
    }
}

/// Finds a room shared with the owner, given whether a direct-message room with
/// the owner exists and the members of each joined room in order (`None` where
/// reading them failed).
pub fn find_room_with_owner(has_dm_room: bool, joined: &Vec<Option<Vec<String>>>, owner: &String) -> (choice: Option<RoomChoice>)
    ensures
        choice == room_with_owner(has_dm_room, joined.deep_view(), owner@),
        has_dm_room ==> choice == Some(RoomChoice::Direct),
        !has_dm_room ==> !(choice matches Some(RoomChoice::Direct)),
        choice matches Some(RoomChoice::Joined(i)) ==> (i < joined.len() && (joined.deep_view()[i as int] matches Some(
            m,
        ) && m.contains(owner@))),
        !has_dm_room && choice is None ==> forall|j: int|
            0 <= j < joined.len() ==> !(#[trigger] joined.deep_view()[j] matches Some(m) && m.contains(owner@)),
{
    proof {
        let rooms = joined.deep_view();
        assert(rooms.len() == joined.len());
        lemma_first_room_is_joined(rooms, owner@, 0);
        if first_room_from(rooms, owner@, 0) is Some {
            lemma_found_room_has_owner(rooms, owner@, 0);
        } else {
            lemma_no_room_means_owner_absent(rooms, owner@, 0);
        }
    }
    if has_dm_room {
        return Some(RoomChoice::Direct);
    }
    let ghost rooms = joined.deep_view();
    let mut i: usize = 0;
    while i < joined.len()
        invariant
            !has_dm_room,
            rooms == joined.deep_view(),
            i <= joined.len(),
            first_room_from(rooms, owner@, 0) == first_room_from(rooms, owner@, i as int),
        decreases joined.len() - i,
    {
        let members = match &joined[i] {
            Some(m) => Some(m),
            None => None,
        };
        assert(rooms[i as int] == match members {
            Some(m) => Some(m.deep_view()),
            None => None::<Seq<Seq<char>>>,
        });
        let scan = scan_room(members, owner);
        assert(first_room_from(rooms, owner@, i as int) == match scan {
            RoomScan::Found => Some(RoomChoice::Joined(i)),
            RoomScan::Continue => first_room_from(rooms, owner@, i + 1),
        });
        match scan {
            RoomScan::Found => return Some(RoomChoice::Joined(i)),
            RoomScan::Continue => {},
        }
        i = i + 1;
    }
    None
}

/// Messages arriving in a room, as far as the bot tells them apart.
#[derive(Debug)]
pub enum MessageKind {
    /// A plain text message, with its body.
    Text(String),
    /// An in-room verification request.
    VerificationRequest,
    /// Anything else.
    Other,
}

pub open spec fn echo_spec(room_joined: bool, message: MessageKind, sender: Seq<char>, own_user_id: Option<Seq<char>>) -> Option<Seq<char>> {
    match message {
        MessageKind::Text(body) => if room_joined && own_user_id != Some(sender) {
            Some("Echo: "@ + body@)
        } else {
            None
        },
        _ => None,
    }
}

/// The answer to a room message: text messages in joined rooms that the bot did
/// not send itself are echoed back as `Echo: <body>`.
pub fn echo_reply(room_joined: bool, message: &MessageKind, sender: &String, own_user_id: &Option<String>) -> (reply: Option<String>)
    ensures
        reply matches Some(r) ==> echo_spec(room_joined, *message, sender@, own_user_id.deep_view()) == Some(r@),
        reply is None ==> echo_spec(room_joined, *message, sender@, own_user_id.deep_view()) is None,
{
    if !room_joined {
        return None;
    }
    let body = match message {
        MessageKind::Text(body) => body,
        _ => return None,
    };
    let own_message = match own_user_id {
        Some(me) => *me == *sender,
        None => false,
    };
    if own_message {
        return None;
    }
    Some(String::from_str("Echo: ").concat(body.as_str()))
}

/// Whether a room message starts an incoming verification.
pub fn starts_verification(message: &MessageKind) -> (b: bool)
    ensures
        b == (*message is VerificationRequest),
{
    matches!(message, MessageKind::VerificationRequest)
}

/// How the room is configured when it is created.
#[derive(Debug, Clone, Copy, PartialEq, Eq)]
pub enum RoomPreset {
    /// Join rule `invite`, history visibility `shared`.
    PrivateChat,
}

/// The room the bot creates for the owner.
#[derive(Debug)]
pub struct RoomCreation {
    /// Users invited on creation.
    pub invite: Vec<String>,
    /// Whether the room is flagged as a direct chat.
    pub is_direct: bool,
    pub preset: RoomPreset,
    /// Whether an `m.room.encryption` state event with the recommended defaults is
    /// part of the initial state. The preset alone does not enable encryption.
    pub encrypted: bool,
}

/// An encrypted direct-message room with the owner as the only invitee.
pub fn encrypted_dm_with(owner: &String) -> (room: RoomCreation)
    ensures
        room.invite.deep_view() == seq![owner@],
        room.is_direct,
        room.preset == RoomPreset::PrivateChat,
        room.encrypted,
{
    let mut invite: Vec<String> = Vec::new();
    invite.push(owner.clone());
    assert(invite.deep_view() =~= seq![owner@]);
    RoomCreation { invite, is_direct: true, preset: RoomPreset::PrivateChat, encrypted: true }
}

/// The bot never answers its own messages, and answers text messages in joined
/// rooms from anyone else with the echo of their body.
pub proof fn lemma_echo(room_joined: bool, body: String, sender: Seq<char>, own_user_id: Option<Seq<char>>)
    ensures
        own_user_id == Some(sender) ==> echo_spec(room_joined, MessageKind::Text(body), sender, own_user_id) is None,
        room_joined && own_user_id != Some(sender) ==> echo_spec(room_joined, MessageKind::Text(body), sender, own_user_id)
            == Some("Echo: "@ + body@),
        !room_joined ==> echo_spec(room_joined, MessageKind::Text(body), sender, own_user_id) is None,
{
}

/// A room found by the search always has the owner as a member, and no readable
/// joined room before it does.
pub proof fn lemma_found_room_has_owner(rooms: Seq<Option<Seq<Seq<char>>>>, owner: Seq<char>, start: int)
    requires
        0 <= start,
        rooms.len() <= usize::MAX,
        first_room_from(rooms, owner, start) matches Some(RoomChoice::Joined(i)),
    ensures
        ({
            let i = first_room_from(rooms, owner, start)->0->Joined_0 as int;
            &&& start <= i < rooms.len()
            &&& rooms[i] matches Some(m) && m.contains(owner)
            &&& forall|j: int| start <= j < i ==> !(#[trigger] rooms[j] matches Some(m) && m.contains(owner))
        }),
    decreases rooms.len() - start,
{
    if start < rooms.len() && scan_spec(rooms[start], owner) == RoomScan::Continue {
        lemma_found_room_has_owner(rooms, owner, start + 1);
    }
}

/// The search finds no room only when no joined room whose members could be read
/// has the owner as a member.
pub proof fn lemma_no_room_means_owner_absent(rooms: Seq<Option<Seq<Seq<char>>>>, owner: Seq<char>, start: int)
    requires
        0 <= start,
        first_room_from(rooms, owner, start) is None,
    ensures
        forall|j: int| start <= j < rooms.len() ==> !(#[trigger] rooms[j] matches Some(m) && m.contains(owner)),
    decreases rooms.len() - start,
{
    if start < rooms.len() {
        lemma_no_room_means_owner_absent(rooms, owner, start + 1);
    }
}

/// The search through joined rooms only ever yields a joined room, never the
/// direct-message room.
pub proof fn lemma_first_room_is_joined(rooms: Seq<Option<Seq<Seq<char>>>>, owner: Seq<char>, start: int)
    ensures
        first_room_from(rooms, owner, start) is Some ==> first_room_from(rooms, owner, start) matches Some(
            RoomChoice::Joined(_),
        ),
    decreases rooms.len() - start,
{
    if 0 <= start < rooms.len() {
        lemma_first_room_is_joined(rooms, owner, start + 1);
    }
}

/// With no direct-message room, the search yields a room exactly when some readable
/// joined room has the owner as a member.
pub proof fn lemma_search_complete(rooms: Seq<Option<Seq<Seq<char>>>>, owner: Seq<char>)
    requires
        rooms.len() <= usize::MAX,
    ensures
        room_with_owner(false, rooms, owner) is Some <==> exists|j: int|
            0 <= j < rooms.len() && (#[trigger] rooms[j] matches Some(m) && m.contains(owner)),
{
    if first_room_from(rooms, owner, 0) is None {
        lemma_no_room_means_owner_absent(rooms, owner, 0);
    } else {
        lemma_first_room_is_joined(rooms, owner, 0);
        lemma_found_room_has_owner(rooms, owner, 0);
        let i = first_room_from(rooms, owner, 0)->0->Joined_0 as int;
        assert(rooms[i] matches Some(m) && m.contains(owner));
    }
}

/// Whenever a direct-message room with the owner exists, the search yields it,
/// whatever the joined rooms hold; without one it yields a joined room or nothing.
pub proof fn lemma_dm_room_wins(has_dm_room: bool, rooms: Seq<Option<Seq<Seq<char>>>>, owner: Seq<char>)
    ensures
        has_dm_room ==> room_with_owner(has_dm_room, rooms, owner) == Some(RoomChoice::Direct),
        !has_dm_room ==> !(room_with_owner(has_dm_room, rooms, owner) matches Some(RoomChoice::Direct)),
{
    lemma_first_room_is_joined(rooms, owner, 0);
}

/// Scanning one room: unreadable members never end the search, a member list
/// holding the owner selects the room, any other list moves on.
pub proof fn lemma_scan_room(members: Seq<Seq<char>>, owner: Seq<char>)
    ensures
        scan_spec(None, owner) == RoomScan::Continue,
        members.contains(owner) ==> scan_spec(Some(members), owner) == RoomScan::Found,
        !members.contains(owner) ==> scan_spec(Some(members), owner) == RoomScan::Continue,
{
}

/// The search picks the earliest joined room that has the owner as a readable
/// member: a room with the owner right after rooms without it is the one chosen.
pub proof fn lemma_first_match_chosen(rooms: Seq<Option<Seq<Seq<char>>>>, owner: Seq<char>, i: int)
    requires
        0 <= i < rooms.len(),
        rooms.len() <= usize::MAX,
        rooms[i] matches Some(m) && m.contains(owner),
        forall|j: int| 0 <= j < i ==> !(#[trigger] rooms[j] matches Some(m) && m.contains(owner)),
    ensures
        room_with_owner(false, rooms, owner) == Some(RoomChoice::Joined(i as usize)),
{
    lemma_first_match_from(rooms, owner, 0, i);
}

proof fn lemma_first_match_from(rooms: Seq<Option<Seq<Seq<char>>>>, owner: Seq<char>, start: int, i: int)
    requires
        0 <= start <= i < rooms.len(),
        rooms[i] matches Some(m) && m.contains(owner),
        forall|j: int| start <= j < i ==> !(#[trigger] rooms[j] matches Some(m) && m.contains(owner)),
    ensures
        first_room_from(rooms, owner, start) == Some(RoomChoice::Joined(i as usize)),
    decreases i - start,
{
    if start < i {
        assert(!(rooms[start] matches Some(m) && m.contains(owner)));
        lemma_first_match_from(rooms, owner, start + 1, i);
    }
}

} // verus!
