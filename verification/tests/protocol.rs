use std::collections::HashMap;
use std::sync::mpsc;

use reverb::commands::{
    parse_command, serialize, DefaultCommand, Echo, EchoType, GetOnlineUsers, OnlineUsers, Payload,
    QueryOrNotify, SetEchoAvailability,
};
use reverb::connection::{ConnectionStatus, InternetClient};
use reverb::failure::FailureType;
use reverb::packet::{check_parameters, Packet, NETWORK_VERSION};
use reverb::server::{
    add_user, handle_get_online_users, handle_packet, handle_set_echo_availability, handle_user_info,
    User, UserAvailability, SERVER_GROUP, SERVER_NAME,
};

fn echo(t: EchoType, target: &str) -> Payload {
    Payload::Echo(Echo { echo_type: t, echo_target: target.to_string() })
}

#[test]
fn echo_type_bytes() {
    assert_eq!(EchoType::parse(0).ok(), Some(EchoType::Group));
    assert_eq!(EchoType::parse(1).ok(), Some(EchoType::User));
    let err = EchoType::parse(2).err().unwrap();
    assert_eq!(err.error_message(), "invalid echotype");
    assert_eq!(EchoType::User.as_byte(), 1);
}

#[test]
fn command_numbers_and_kinds() {
    assert_eq!(Payload::Default(DefaultCommand {}).number(), 0);
    assert_eq!(echo(EchoType::Group, "x").number(), 2);
    assert_eq!(Payload::GetOnlineUsers(GetOnlineUsers {}).number(), 5);
    assert_eq!(Payload::SetEchoAvailability(SetEchoAvailability(true)).number(), 6);
    assert_eq!(
        Payload::SetEchoAvailability(SetEchoAvailability(false)).query_or_notify(),
        QueryOrNotify::Notify
    );
    assert_eq!(Payload::Default(DefaultCommand {}).query_or_notify(), QueryOrNotify::Query);
}

#[test]
fn serialized_commands() {
    assert_eq!(serialize(&Payload::Default(DefaultCommand {})).ok(), Some(vec![0]));
    assert_eq!(serialize(&echo(EchoType::User, "hi")).ok(), Some(vec![2, 1, b'h', b'i']));
    assert_eq!(
        serialize(&Payload::SetEchoAvailability(SetEchoAvailability(true))).ok(),
        Some(vec![6, 1])
    );
    assert_eq!(serialize(&Payload::GetOnlineUsers(GetOnlineUsers {})).ok(), Some(vec![5]));
}

#[test]
fn commands_read_back() {
    match parse_command(vec![0]) {
        Ok(Payload::Default(_)) => {}
        other => panic!("{:?}", other),
    }
    match parse_command(vec![5]) {
        Ok(Payload::GetOnlineUsers(_)) => {}
        other => panic!("{:?}", other),
    }
    match parse_command(vec![2, 1, b'h', b'i']) {
        Ok(Payload::Echo(e)) => {
            assert_eq!(e.echo_type, EchoType::User);
            assert_eq!(e.echo_target, "hi");
        }
        other => panic!("{:?}", other),
    }
}

#[test]
fn set_echo_availability_reads_back() {
    for open in [true, false] {
        let data = serialize(&Payload::SetEchoAvailability(SetEchoAvailability(open))).unwrap();
        assert_eq!(data, vec![6, open as u8]);
        match parse_command(data) {
            Ok(Payload::SetEchoAvailability(c)) => assert_eq!(c.0, open),
            other => panic!("{:?}", other),
        }
    }
    let err = parse_command(vec![6]).err().unwrap();
    assert_eq!(err.error_message(), "invalid data length for SetEchoAvailability");
    assert_eq!(err.failure_type(), FailureType::Warning);
    let err = parse_command(vec![6, 2]).err().unwrap();
    assert_eq!(err.error_message(), "invalid value for SetEchoAvailability");
}

#[test]
fn unknown_command_and_bad_echo() {
    assert_eq!(parse_command(vec![7]).err().unwrap().error_message(), "invalid command");
    assert_eq!(parse_command(vec![2, 9]).err().unwrap().error_message(), "invalid echotype");
    let err = parse_command(vec![2, 0, 0xff]).err().unwrap();
    assert!(err.error_message().starts_with("failed to parse echo target: "));
}

#[test]
fn online_users_round_trip_through_postcard() {
    let mut users = HashMap::new();
    users.insert(1u16, "alice".to_string());
    users.insert(7u16, "bob".to_string());
    let data = serialize(&Payload::OnlineUsers(OnlineUsers { users: users.clone() })).unwrap();
    assert_eq!(data[0], 3);
    match parse_command(data) {
        Ok(Payload::OnlineUsers(o)) => assert_eq!(o.users, users),
        other => panic!("{:?}", other),
    }
    let err = parse_command(vec![3, 0xff, 0xff, 0xff]).err().unwrap();
    assert!(err.error_message().starts_with("failed to parse OnlineUsers: "));
}

#[test]
fn online_users_fit_in_512_bytes() {
    // one entry: 1 byte for the count, 1 for the id, 2 for the name's length
    let fits = |name_len: usize| {
        let mut users = HashMap::new();
        users.insert(1u16, "n".repeat(name_len));
        Payload::OnlineUsers(OnlineUsers { users })
    };
    let body = fits(508).serialize().unwrap();
    assert_eq!(body.len(), 512);
    let err = fits(509).serialize().err().unwrap();
    assert!(err.error_message().starts_with("failed to serialize OnlineUsers: "));
    assert_eq!(err.failure_type(), FailureType::Warning);
    assert!(serialize(&fits(509)).is_err());
    assert!(Packet::new("al", "g", fits(508)).unwrap().serialize().is_ok());
    assert!(Packet::new("al", "g", fits(509)).unwrap().serialize().is_err());
}

#[test]
fn parameters_must_fit_their_fields() {
    assert!(check_parameters("alice", "band").is_ok());
    let long_name = "a".repeat(33);
    assert_eq!(check_parameters(&long_name, "g").err().unwrap().error_message(), "username too long");
    let long_group = "g".repeat(17);
    assert_eq!(check_parameters("a", &long_group).err().unwrap().error_message(), "group name too long");
}

#[test]
fn packet_bytes_layout() {
    let p = Packet::new("al", "g", Payload::Default(DefaultCommand {})).unwrap();
    let data = p.serialize().unwrap();
    assert_eq!(data.len(), 53);
    assert_eq!(&data[0..3], &NETWORK_VERSION);
    assert_eq!(&data[3..5], b"al");
    assert!(data[5..35].iter().all(|b| *b == 0));
    assert_eq!(data[35], b'g');
    assert!(data[36..51].iter().all(|b| *b == 0));
    assert_eq!(data[51], 0);
    assert_eq!(data[52], 0);
}

#[test]
fn packet_round_trip() {
    let p = Packet::new("alice", "band", echo(EchoType::Group, "hello there")).unwrap();
    let data = p.serialize().unwrap();
    let back = Packet::parse(&data).unwrap();
    assert_eq!(back.version(), &NETWORK_VERSION);
    assert_eq!(back.username(), "alice");
    assert_eq!(back.group(), "band");
    match back.payload() {
        Payload::Echo(e) => {
            assert_eq!(e.echo_type, EchoType::Group);
            assert_eq!(e.echo_target, "hello there");
        }
        other => panic!("{:?}", other),
    }
}

#[test]
fn short_packets_are_refused() {
    let err = Packet::parse(&[0u8; 10]).err().unwrap();
    assert_eq!(err.error_message(), "Data too short to be a valid packet");
    let too_long = Packet::new(&"x".repeat(40), "g", Payload::Default(DefaultCommand {}));
    assert_eq!(too_long.err().unwrap().error_message(), "username too long");
}

fn user(name: &str, availability: UserAvailability) -> User {
    User { username: name.to_string(), group: "g".to_string(), availability }
}

#[test]
fn add_user_counts_up_and_wraps() {
    let mut users: im::HashMap<u16, User> = im::HashMap::new();
    let mut next = 5u16;
    assert_eq!(add_user(user("a", UserAvailability::ClosedToEcho), &mut users, &mut next), 5);
    assert_eq!(next, 6);
    let mut last = u16::MAX;
    assert_eq!(add_user(user("b", UserAvailability::ClosedToEcho), &mut users, &mut last), u16::MAX);
    assert_eq!(last, 0);
    assert_eq!(users.len(), 2);
    assert_eq!(users.get(&5).unwrap().username, "a");
}

#[test]
fn server_answers_default_with_default() {
    let mut users: im::HashMap<u16, User> = im::HashMap::new();
    let p = Packet::new("al", "g", Payload::Default(DefaultCommand {})).unwrap();
    let reply = handle_packet(p, &0, &mut users).unwrap().unwrap();
    assert_eq!(reply.username(), SERVER_NAME);
    assert_eq!(reply.group(), SERVER_GROUP);
    assert!(matches!(reply.payload(), Payload::Default(_)));
}

#[test]
fn server_records_availability_and_lists_open_users() {
    let mut users: im::HashMap<u16, User> = im::HashMap::new();
    let mut next = 0u16;
    let hello = Packet::new("alice", "band", Payload::Default(DefaultCommand {})).unwrap();
    let alice = handle_user_info(hello, &mut users, &mut next);
    let hello_bob = Packet::new("bob", "band", Payload::Default(DefaultCommand {})).unwrap();
    let _bob = handle_user_info(hello_bob, &mut users, &mut next);
    assert_eq!(users.get(&alice).unwrap().availability, UserAvailability::ClosedToEcho);

    let open = Packet::new("alice", "band", Payload::SetEchoAvailability(SetEchoAvailability(true))).unwrap();
    assert!(handle_packet(open, &alice, &mut users).unwrap().is_none());
    assert_eq!(users.get(&alice).unwrap().availability, UserAvailability::OpenToEcho);

    let ask = Packet::new("bob", "band", Payload::GetOnlineUsers(GetOnlineUsers {})).unwrap();
    let reply = handle_packet(ask, &1, &mut users).unwrap().unwrap();
    match reply.payload() {
        Payload::OnlineUsers(o) => {
            let mut expected = HashMap::new();
            expected.insert(alice, "alice".to_string());
            assert_eq!(o.users, expected);
        }
        other => panic!("{:?}", other),
    }
}

#[test]
fn set_echo_availability_needs_that_command() {
    let mut users: im::HashMap<u16, User> = im::HashMap::new();
    users.insert(3, user("c", UserAvailability::OpenToEcho));
    let p = Packet::new("c", "g", Payload::SetEchoAvailability(SetEchoAvailability(false))).unwrap();
    assert!(handle_set_echo_availability(p, &3, &mut users).is_ok());
    assert_eq!(users.get(&3).unwrap().availability, UserAvailability::ClosedToEcho);
    let other = Packet::new("c", "g", Payload::Default(DefaultCommand {})).unwrap();
    assert!(handle_set_echo_availability(other, &3, &mut users).is_err());
    let listed = handle_get_online_users(Packet::new("c", "g", Payload::Default(DefaultCommand {})).unwrap(), &users);
    match listed {
        Payload::OnlineUsers(o) => assert!(o.users.is_empty()),
        other => panic!("{:?}", other),
    }
}

#[test]
fn server_refuses_other_commands() {
    let mut users: im::HashMap<u16, User> = im::HashMap::new();
    let p = Packet::new("al", "g", echo(EchoType::User, "x")).unwrap();
    let err = handle_packet(p, &0, &mut users).err().unwrap();
    assert_eq!(err.error_message(), "packet handling error: command not found");
}

#[test]
fn client_connection_states() {
    let mut client = InternetClient::new();
    assert!(matches!(client.connection_status, ConnectionStatus::NotConnected));
    let err = client.request_online_users("me").err().unwrap();
    assert_eq!(err.error_message(), "Not connected to server, cannot send message");
    assert!(client.connect().is_ok());
    assert!(matches!(client.connection_status, ConnectionStatus::Connecting));
    assert_eq!(client.connect().err().unwrap().error_message(), "Already connecting to server");
    let err = client.set_echo_availability("me", true).err().unwrap();
    assert_eq!(err.error_message(), "Currently connecting to server, cannot send message");
}

#[test]
fn connected_client_sends_packets() {
    let (tx, rx) = mpsc::channel();
    let mut client = InternetClient::new();
    client.update_connection(ConnectionStatus::Connected(tx));
    assert_eq!(client.connect().err().unwrap().error_message(), "Already connected to server");
    client.request_online_users("me").unwrap();
    let sent = rx.recv().unwrap();
    assert_eq!(sent.username(), "me");
    assert_eq!(sent.group(), "none");
    assert!(matches!(sent.payload(), Payload::GetOnlineUsers(_)));
    client.set_echo_availability("me", true).unwrap();
    let sent = rx.recv().unwrap();
    assert_eq!(sent.username(), "me");
    assert!(matches!(sent.payload(), Payload::SetEchoAvailability(SetEchoAvailability(true))));
    let long = "n".repeat(33);
    assert_eq!(client.send_message(&long, Payload::Default(DefaultCommand {})).err().unwrap().error_message(), "username too long");
}

#[test]
fn packet_names_are_decoded_leniently() {
    let mut data = vec![0u8, 0, 0];
    let mut name = vec![b'a', 0xff];
    name.resize(32, 0);
    data.extend_from_slice(&name);
    let mut group = b"g".to_vec();
    group.resize(16, 0);
    data.extend_from_slice(&group);
    data.push(0);
    data.push(0);
    let p = Packet::parse(&data).unwrap();
    assert_eq!(p.username(), "a\u{FFFD}");
    assert_eq!(p.group(), "g");
    assert!(matches!(p.payload(), Payload::Default(_)));
}
