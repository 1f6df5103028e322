use std::sync::mpsc::Sender;
use vstd::prelude::*;
use vstd::string::*;

use crate::commands::{GetOnlineUsers, Payload, PayloadView, SetEchoAvailability};
use crate::failure::{Failure, FailureType};
use crate::packet::{params_error, params_ok, Packet, PacketView};

verus! {

#[verifier::external_type_specification]
#[verifier::external_body]
#[verifier::reject_recursive_types(T)]
pub struct ExSender<T>(Sender<T>);

/// Calls `Sender::send`. Whether the packet gets through depends on the
/// receiving side, so nothing is claimed of the result; on failure it
/// returns the error's message. The packet handed to the channel must be
/// the one `client` has just recorded as handed to the link (a demand on the
/// caller, which Verus checks; `client` is not read).
#[verifier::external_body]
#[allow(unused_variables)]
fn send_packet(sender: &Sender<Packet>, packet: Packet, client: &InternetClient) -> (r: Result<(), String>)
    requires
        client.sent_packets().len() > 0,
        client.sent_packets().last() == packet@,
{
    sender.send(packet).map_err(|e| format!("{}", e))
}

/// The state of the client's link to the server.
#[derive(Debug)]
pub enum ConnectionStatus {
    Connected(Sender<Packet>),
    Connecting,
    NotConnected,
}

/// The client's side of the link to the server.
pub struct InternetClient {
    pub connection_status: ConnectionStatus,
    pub group: Option<String>,
    /// The packets handed to the link so far, oldest first.
    pub sent: Ghost<Seq<PacketView>>,
}

/// The group a client's packets are sent under: its own, else "none".
pub open spec fn group_or_none(group: Option<String>) -> Seq<char> {
    match group {
        Some(g) => g@,
        None => "none"@,
    }
}

/// The packet that a command from `username` becomes on a client of the
/// given group.
pub open spec fn message_view(group: Option<String>, username: Seq<char>, command: PayloadView) -> PacketView {
    PacketView {
        version: crate::packet::network_version(),
        username: username,
        group: group_or_none(group),
        payload: command,
    }
}

/// What sending `command` as `username` does, taking the client from `old`
/// to `new` with result `r`. A name or group that does not fit its field is
/// refused first. Then, while connected, the packet is handed to the link
/// (whether it gets through rests with the receiving side); while connecting
/// or not connected it is refused. Only the packet handed on is recorded;
/// nothing else changes.
pub open spec fn send_outcome(
    old: InternetClient,
    new: InternetClient,
    username: Seq<char>,
    command: PayloadView,
    r: Result<(), Failure>,
) -> bool {
    let group = group_or_none(old.group);
    &&& new.connection_status == old.connection_status
    &&& new.group == old.group
    &&& if !params_ok(username, group) {
        &&& r matches Err(f) && f.kind() == FailureType::Warning && f.error_text() == params_error(username, group)
        &&& new.sent_packets() == old.sent_packets()
    } else {
        match old.connection_status {
            ConnectionStatus::Connected(_) => {
                &&& r is Ok || (r matches Err(f) && f.kind() == FailureType::Warning)
                &&& new.sent_packets() == old.sent_packets().push(message_view(old.group, username, command))
            },
            ConnectionStatus::Connecting => {
                &&& r matches Err(f) && f.kind() == FailureType::Warning && f.error_text()
                    == "Currently connecting to server, cannot send message"@
                &&& new.sent_packets() == old.sent_packets()
            },
            ConnectionStatus::NotConnected => {
                &&& r matches Err(f) && f.kind() == FailureType::Warning && f.error_text()
                    == "Not connected to server, cannot send message"@
                &&& new.sent_packets() == old.sent_packets()
            },
        }
    }
}

impl InternetClient {
    /// The packets handed to the link so far, oldest first.
    pub open spec fn sent_packets(&self) -> Seq<PacketView> {
        self.sent@
    }

    /// A client that is not connected, belongs to no group and has sent nothing.
    pub fn new() -> (c: InternetClient)
        ensures
            c.connection_status is NotConnected,
            c.group is None,
            c.sent_packets() == Seq::<PacketView>::empty(),
    {
        InternetClient {
            connection_status: ConnectionStatus::NotConnected,
            group: None,
            sent: Ghost(Seq::empty()),
        }
    }

    /// Starts connecting: refused while connected or connecting, else the
    /// client is now connecting (the caller then reads the server config and
    /// starts the link).
    pub fn connect(&mut self) -> (r: Result<(), Failure>)
        ensures
            match old(self).connection_status {
                ConnectionStatus::Connected(_) => r matches Err(f) && f.kind() == FailureType::Warning
                    && f.error_text() == "Already connected to server"@ && *final(self)
                    == *old(self),
                ConnectionStatus::Connecting => r matches Err(f) && f.kind() == FailureType::Warning
                    && f.error_text() == "Already connecting to server"@ && *final(self)
                    == *old(self),
                ConnectionStatus::NotConnected => r is Ok && final(self).connection_status is Connecting
                    && final(self).group == old(self).group && final(self).sent_packets()
                    == old(self).sent_packets(),
            },
    {
        match self.connection_status {
            ConnectionStatus::Connected(_) => Err(
                Failure::new(String::from_str("Already connected to server"), FailureType::Warning),
            ),
            ConnectionStatus::Connecting => Err(
                Failure::new(String::from_str("Already connecting to server"), FailureType::Warning),
            ),
            ConnectionStatus::NotConnected => {
                self.connection_status = ConnectionStatus::Connecting;
                Ok(())
            },
        }
    }

    /// The packet that `send_message` hands to the link for a command.
    pub fn message_packet(&self, username: &str, command: Payload) -> (r: Result<Packet, Failure>)
        ensures
            r is Ok <==> params_ok(username@, group_or_none(self.group)),
            r matches Ok(p) ==> p@ == (PacketView {
                version: crate::packet::network_version(),
                username: username@,
                group: group_or_none(self.group),
                payload: command@,
            }),
            r matches Err(f) ==> f.kind() == FailureType::Warning && f.error_text() == params_error(
                username@,
                group_or_none(self.group),
            ),
    {
        let group = match &self.group {
            Some(g) => g.clone(),
            None => String::from_str("none"),
        };
        Packet::new(username, group.as_str(), command)
    }

    /// Sends a command from the given user to the server: the packet is built
    /// first (its failure comes first), then it goes to the link if connected;
    /// while connecting or not connected it is refused.
    pub fn send_message(&mut self, username: &str, command: Payload) -> (r: Result<(), Failure>)
        ensures
            send_outcome(*old(self), *final(self), username@, command@, r),
    {
        let packet = self.message_packet(username, command)?;
        match &self.connection_status {
            ConnectionStatus::Connected(sender) => {
                proof {
                    self.sent@ = self.sent@.push(packet@);
                }
                match send_packet(sender, packet, self) {
                    Ok(()) => Ok(()),
                    Err(e) => Err(Failure::new(e, FailureType::Warning)),
                }
            },
            ConnectionStatus::Connecting => Err(
                Failure::new(
                    String::from_str("Currently connecting to server, cannot send message"),
                    FailureType::Warning,
                ),
            ),
            ConnectionStatus::NotConnected => Err(
                Failure::new(
                    String::from_str("Not connected to server, cannot send message"),
                    FailureType::Warning,
                ),
            ),
        }
    }

    /// Records the state of the link.
    pub fn update_connection(&mut self, connection_status: ConnectionStatus)
        ensures
            final(self).connection_status == connection_status,
            final(self).group == old(self).group,
            final(self).sent_packets() == old(self).sent_packets(),
    {
        self.connection_status = connection_status;
    }

    /// Asks the server for the users that are open to echoes.
    pub fn request_online_users(&mut self, username: &str) -> (r: Result<(), Failure>)
        ensures
            send_outcome(*old(self), *final(self), username@, PayloadView::GetOnlineUsers, r),
    {
        self.send_message(username, Payload::GetOnlineUsers(GetOnlineUsers {  }))
    }

    /// Tells the server whether this user is open to echoes.
    pub fn set_echo_availability(&mut self, username: &str, availability: bool) -> (r: Result<(), Failure>)
        ensures
            send_outcome(*old(self), *final(self), username@, PayloadView::SetEchoAvailability(availability), r),
    {
        self.send_message(username, Payload::SetEchoAvailability(SetEchoAvailability(availability)))
    }
}

} // verus!
