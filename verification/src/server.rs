use std::collections::HashMap;
use vstd::prelude::*;
use vstd::string::*;
use vstd::utf8::*;

use crate::commands::{
    DefaultCommand, OnlineUsers, Payload, PayloadView, SetEchoAvailability,
};
use crate::failure::{Failure, FailureType};
use crate::packet::{network_version, Packet, PacketView, NETWORK_VERSION};

verus! {

broadcast use {vstd::utf8::group_utf8_lib, vstd::std_specs::hash::group_hash_axioms};

/// The name the server signs its packets with.
pub const SERVER_NAME: &'static str = "server";

/// The group the server signs its packets with.
pub const SERVER_GROUP: &'static str = "server";

/// Whether a user wants to receive echoes.
#[derive(Debug, Clone, Copy, PartialEq, Eq, Structural)]
pub enum UserAvailability {
    OpenToEcho,
    ClosedToEcho,
}

/// A user known to the server.
#[derive(Debug, Clone)]
pub struct User {
    pub username: String,
    pub group: String,
    pub availability: UserAvailability,
}

#[verifier::external_type_specification]
#[verifier::external_body]
#[verifier::reject_recursive_types(K)]
#[verifier::reject_recursive_types(V)]
#[verifier::reject_recursive_types(S)]
pub struct ExImHashMap<K, V, S>(im::HashMap<K, V, S>);

/// The users that an `im::HashMap` of users holds, by id.
pub uninterp spec fn user_table(m: im::HashMap<u16, User>) -> Map<u16, User>;

/// Calls `im::HashMap::get` and clones the user found. Claims that the
/// result is the user the map holds under the id, if any.
#[verifier::external_body]
fn users_get(m: &im::HashMap<u16, User>, id: u16) -> (r: Option<User>)
    ensures
        r == (if user_table(*m).contains_key(id) {
            Some(user_table(*m)[id])
        } else {
            None::<User>
        }),
{
    m.get(&id).cloned()
}

/// Calls `im::HashMap::update`. Claims, as its documentation says, that the
/// new map holds the old users with the given id mapped to the given user.
#[verifier::external_body]
fn users_update(m: &im::HashMap<u16, User>, id: u16, user: User) -> (r: im::HashMap<u16, User>)
    ensures
        user_table(r) == user_table(*m).insert(id, user),
{
    m.update(id, user)
}

/// Calls `im::HashMap::iter` and copies the entries out, in the map's own
/// order. Claims that the entries are exactly the map's users: each entry is
/// in the map, and each user of the map is some entry. The order is not claimed.
#[verifier::external_body]
fn users_entries(m: &im::HashMap<u16, User>) -> (r: Vec<(u16, User)>)
    ensures
        forall|i: int|
            0 <= i < r@.len() ==> user_table(*m).contains_key(#[trigger] r@[i].0) && user_table(
                *m,
            )[r@[i].0] == r@[i].1,
        forall|k: u16|
            user_table(*m).contains_key(k) ==> exists|i: int|
                0 <= i < r@.len() && #[trigger] r@[i].0 == k,
{
    m.iter().map(|(k, v)| (*k, v.clone())).collect()
}

/// The names of the users that are open to echoes, by id.
pub open spec fn open_user_names(t: Map<u16, User>) -> Map<u16, String> {
    Map::new(
        |k: u16| t.contains_key(k) && t[k].availability == UserAvailability::OpenToEcho,
        |k: u16| t[k].username,
    )
}

/// The users that are open to echoes, as the command that answers a request
/// for online users.
pub fn handle_get_online_users(_packet: Packet, users: &im::HashMap<u16, User>) -> (r: Payload)
    ensures
        r matches Payload::OnlineUsers(o) && o.users@ == open_user_names(user_table(*users)),
{
    let entries = users_entries(users);
    let ghost t = user_table(*users);
    let mut open_users: HashMap<u16, String> = HashMap::new();
    let n = entries.len();
    for i in 0..n
        invariant
            n == entries@.len(),
            t == user_table(*users),
            forall|j: int|
                0 <= j < entries@.len() ==> t.contains_key(#[trigger] entries@[j].0)
                    && t[entries@[j].0] == entries@[j].1,
            forall|k: u16|
                #![trigger open_users@.contains_key(k)]
                open_users@.contains_key(k) ==> t.contains_key(k) && t[k].availability
                    == UserAvailability::OpenToEcho && open_users@[k] == t[k].username,
            forall|j: int|
                0 <= j < i && (#[trigger] entries@[j]).1.availability == UserAvailability::OpenToEcho
                    ==> open_users@.contains_key(entries@[j].0),
    {
        let (id, user) = &entries[i];
        if user.availability == UserAvailability::OpenToEcho {
            open_users.insert(*id, user.username.clone());
        }
    }
    proof {
        let want = open_user_names(t);
        assert forall|k: u16| want.contains_key(k) implies open_users@.contains_key(k) by {
            let j = choose|j: int| 0 <= j < entries@.len() && #[trigger] entries@[j].0 == k;
            assert(entries@[j].1 == t[k]);
        }
        assert(open_users@ =~= want);
    }
    Payload::OnlineUsers(OnlineUsers { users: open_users })
}

/// The set-echo-availability command of a payload.
fn try_get_set_echo_availability(item: &Payload) -> (r: Result<SetEchoAvailability, Failure>)
    ensures
        match item {
            Payload::SetEchoAvailability(c) => r == Ok::<SetEchoAvailability, Failure>(*c),
            _ => r matches Err(f) && f.kind() == FailureType::Warning && f.error_text()
                == "failed to read SetEchoAvailability from Box"@,
        },
{
    match item {
        Payload::SetEchoAvailability(c) => Ok(*c),
        _ => Err(
            Failure::new(
                String::from_str("failed to read SetEchoAvailability from Box"),
                FailureType::Warning,
            ),
        ),
    }
}

/// The availability a set-echo-availability flag stands for.
pub open spec fn availability_of(open: bool) -> UserAvailability {
    if open {
        UserAvailability::OpenToEcho
    } else {
        UserAvailability::ClosedToEcho
    }
}

/// The user table after a user set their availability.
pub open spec fn with_availability(t: Map<u16, User>, id: u16, open: bool) -> Map<u16, User> {
    t.insert(id, User { availability: availability_of(open), ..t[id] })
}

/// Records the availability that a set-echo-availability packet asks for,
/// for the user with the given id.
pub fn handle_set_echo_availability(
    packet: Packet,
    user_id: &u16,
    users: &mut im::HashMap<u16, User>,
) -> (r: Result<(), Failure>)
    requires
        packet.payload@ is SetEchoAvailability ==> user_table(*old(users)).contains_key(*user_id),
    ensures
        match packet.payload {
            Payload::SetEchoAvailability(c) => r is Ok && user_table(*final(users))
                == with_availability(user_table(*old(users)), *user_id, c.0),
            _ => r matches Err(f) && f.kind() == FailureType::Warning && user_table(*final(users))
                == user_table(*old(users)),
        },
{
    let command = try_get_set_echo_availability(packet.payload())?;
    let found = users_get(users, *user_id);
    let mut user = match found {
        Some(u) => u,
        None => {
            proof {
                assert(false);
            }
            return Ok(());
        },
    };
    let echo_availability = match command.0 {
        false => UserAvailability::ClosedToEcho,
        true => UserAvailability::OpenToEcho,
    };
    user.availability = echo_availability;
    let updated = users_update(users, *user_id, user);
    *users = updated;
    Ok(())
}

/// Registers a user under the next free id and moves the counter on; the
/// counter wraps around when it is full, and a wrapped id replaces the user
/// it was given to before.
pub fn add_user(user: User, users: &mut im::HashMap<u16, User>, next_id: &mut u16) -> (id: u16)
    ensures
        id == *old(next_id),
        *final(next_id) == (if *old(next_id) == u16::MAX {
            0
        } else {
            (*old(next_id) + 1) as u16
        }),
        user_table(*final(users)) == user_table(*old(users)).insert(id, user),
{
    let id = *next_id;
    *next_id = next_id.wrapping_add(1);
    let updated = users_update(users, id, user);
    *users = updated;
    id
}

/// Registers the sender of a packet as a user that is closed to echoes.
pub fn handle_user_info(packet: Packet, users: &mut im::HashMap<u16, User>, next_id: &mut u16) -> (id: u16)
    ensures
        id == *old(next_id),
        *final(next_id) == (if *old(next_id) == u16::MAX {
            0
        } else {
            (*old(next_id) + 1) as u16
        }),
        user_table(*final(users)).dom() == user_table(*old(users)).dom().insert(id),
        forall|k: u16| k != id && user_table(*old(users)).contains_key(k)
            ==> #[trigger] user_table(*final(users))[k] == user_table(*old(users))[k],
        user_table(*final(users))[id].username@ == packet.username@,
        user_table(*final(users))[id].group@ == packet.group@,
        user_table(*final(users))[id].availability == UserAvailability::ClosedToEcho,
{
    let username = packet.username;
    let group = packet.group;
    let availability = UserAvailability::ClosedToEcho;
    let user = User { username, group, availability };
    add_user(user, users, next_id)
}

proof fn lemma_server_name_fits()
    ensures
        encode_utf8(SERVER_NAME@).len() <= 16,
        encode_utf8(SERVER_GROUP@).len() <= 16,
{
    reveal_strlit("server");
    assert(is_ascii_chars(SERVER_NAME@));
    vstd::utf8::is_ascii_chars_encode_utf8(SERVER_NAME@);
}

/// What the server answers to a packet from the user with the given id: an
/// empty command to an empty command, the users open to echoes to a request
/// for them (both signed by the server), nothing to a set-echo-availability
/// command, whose availability it records, and a failure to anything else.
pub fn handle_packet(packet: Packet, user_id: &u16, users: &mut im::HashMap<u16, User>) -> (r: Result<Option<Packet>, Failure>)
    requires
        packet.payload@ is SetEchoAvailability ==> user_table(*old(users)).contains_key(*user_id),
    ensures
        match packet.payload@ {
            PayloadView::Default => user_table(*final(users)) == user_table(*old(users)) && (r matches Ok(Some(p)) && p@ == (PacketView {
                version: network_version(),
                username: SERVER_NAME@,
                group: SERVER_GROUP@,
                payload: PayloadView::Default,
            })),
            PayloadView::GetOnlineUsers => user_table(*final(users)) == user_table(*old(users)) && (r matches Ok(Some(p)) && p.version@ == network_version() && p.username@ == SERVER_NAME@
                && p.group@ == SERVER_GROUP@ && (p.payload matches Payload::OnlineUsers(o)
                && o.users@ == open_user_names(user_table(*old(users))))),
            PayloadView::SetEchoAvailability(open) => r matches Ok(None) && user_table(*final(users))
                == with_availability(user_table(*old(users)), *user_id, open),
            _ => user_table(*final(users)) == user_table(*old(users)) && (r matches Err(f) && f.kind() == FailureType::Warning && f.error_text()
                == "packet handling error: command not found"@),
        },
{
    let number = packet.payload().number();
    if number == 0 {
        proof {
            lemma_server_name_fits();
        }
        let p = Packet::new(SERVER_NAME, SERVER_GROUP, Payload::Default(DefaultCommand {  }))?;
        Ok(Some(p))
    } else if number == 5 {
        let outgoing_command = handle_get_online_users(packet, users);
        let p = Packet {
            version: NETWORK_VERSION,
            username: String::from_str(SERVER_NAME),
            group: String::from_str(SERVER_GROUP),
            payload: outgoing_command,
        };
        assert(p.version@ =~= network_version());
        Ok(Some(p))
    } else if number == 6 {
        handle_set_echo_availability(packet, user_id, users)?;
        Ok(None)
    } else {
        Err(
            Failure::new(
                String::from_str("packet handling error: command not found"),
                FailureType::Warning,
            ),
        )
    }
}

} // verus!
