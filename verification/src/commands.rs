use std::collections::HashMap;
use vstd::prelude::*;
use vstd::string::*;
use vstd::utf8::*;

use crate::failure::{Failure, FailureType};
use crate::text::{decode_utf8_strict};

verus! {

broadcast use vstd::utf8::group_utf8_lib;

/// The number by which each command is known on the wire.
pub trait NetworkCommandID {
    const ID: u8;
}

/// Whether a command asks for an answer or only informs the other side.
#[derive(Debug, Clone, Copy, PartialEq, Eq, Structural)]
pub enum QueryOrNotify {
    Query,
    Notify,
}

/// A command carried in the payload of a packet.
pub trait NetworkCommand: Sized {
    /// The inputs on which `parse` does its work (on others the parser
    /// indexes past the end of the data).
    spec fn parse_accepts(data: Seq<u8>) -> bool;

    fn number(&self) -> u8;

    fn serialize(&self) -> Result<Vec<u8>, Failure>;

    fn parse(data: Vec<u8>) -> Result<Self, Failure>
        requires
            Self::parse_accepts(data@),
    ;

    fn query_or_notify(&self) -> QueryOrNotify;
}

/// The empty command, answered by the server with an empty command.
#[derive(Debug, Clone, Copy, PartialEq, Eq, Structural)]
pub struct DefaultCommand {}

/// The request for the users that are open to echoes.
#[derive(Debug, Clone, Copy, PartialEq, Eq, Structural)]
pub struct GetOnlineUsers {}

/// Who an echo is addressed to.
#[derive(Debug, Clone, Copy, PartialEq, Eq, Structural)]
pub enum EchoType {
    Group,
    User,
}

/// An echo to a group or a user.
#[derive(Debug)]
pub struct Echo {
    pub echo_type: EchoType,
    pub echo_target: String,
}

/// The users that are open to echoes, by id.
#[derive(Debug)]
pub struct OnlineUsers {
    pub users: HashMap<u16, String>,
}

/// A user's choice to be open to echoes or not.
#[derive(Debug, Clone, Copy, PartialEq, Eq, Structural)]
pub struct SetEchoAvailability(pub bool);

impl NetworkCommandID for DefaultCommand {
    const ID: u8 = 0;
}

impl NetworkCommandID for Echo {
    const ID: u8 = 2;
}

impl NetworkCommandID for OnlineUsers {
    const ID: u8 = 3;
}

impl NetworkCommandID for GetOnlineUsers {
    const ID: u8 = 5;
}

impl NetworkCommandID for SetEchoAvailability {
    const ID: u8 = 6;
}

/// The byte an echo type is written as.
pub open spec fn echo_type_byte(t: EchoType) -> u8 {
    match t {
        EchoType::Group => 0,
        EchoType::User => 1,
    }
}

/// The echo type a byte stands for, if any.
pub open spec fn echo_type_from_byte(b: u8) -> Option<EchoType> {
    if b == 0 {
        Some(EchoType::Group)
    } else if b == 1 {
        Some(EchoType::User)
    } else {
        None
    }
}

impl EchoType {
    pub fn parse(data: u8) -> (r: Result<EchoType, Failure>)
        ensures
            match echo_type_from_byte(data) {
                Some(t) => r == Ok::<EchoType, Failure>(t),
                None => r matches Err(f) && f.kind() == FailureType::Warning && f.error_text()
                    == "invalid echotype"@ && f.context_text() == Seq::<char>::empty(),
            },
    {
        if data == 0 {
            Ok(EchoType::Group)
        } else if data == 1 {
            Ok(EchoType::User)
        } else {
            Err(Failure::new(String::from_str("invalid echotype"), FailureType::Warning))
        }
    }

    pub fn as_byte(&self) -> (b: u8)
        ensures
            b == echo_type_byte(*self),
    {
        match self {
            EchoType::Group => 0,
            EchoType::User => 1,
        }
    }
}

/// What postcard's `from_bytes` makes of `bytes` as a map from user ids to
/// user names, when it succeeds.
pub uninterp spec fn postcard_users(bytes: Seq<u8>) -> Option<Map<u16, Seq<char>>>;

/// How many bytes postcard's `to_slice` writes for a map from user ids to
/// user names (the same whichever order the map is walked in).
pub uninterp spec fn postcard_users_len(users: Map<u16, Seq<char>>) -> nat;

/// The size of the buffer the online users are encoded into.
pub const USERS_BUFFER_BYTES: usize = 512;

/// Calls `postcard::to_slice` on the map with a zeroed buffer of `capacity`
/// bytes and copies the written bytes out. Its only failure here is a full
/// buffer, so it claims success exactly when the encoding (of the named
/// length) fits in `capacity` bytes, and that the written bytes decode (by
/// `postcard::from_bytes`, as named) to the same map, as serde's round trip
/// promises. The byte order depends on how the map is walked, so the bytes
/// themselves are not claimed. On failure it returns postcard's error message.
#[verifier::external_body]
fn encode_users(users: &HashMap<u16, String>, capacity: usize) -> (r: Result<Vec<u8>, String>)
    ensures
        r is Ok <==> postcard_users_len(users.deep_view()) <= capacity,
        r matches Ok(b) ==> b@.len() == postcard_users_len(users.deep_view()) && postcard_users(b@)
            == Some(users.deep_view()),
{
    let mut buffer = vec![0u8; capacity];
    match postcard::to_slice(users, &mut buffer) {
        Ok(written) => Ok(written.to_vec()),
        Err(e) => Err(format!("{}", e)),
    }
}

/// Calls `postcard::from_bytes` for a map from user ids to user names.
/// Claims that it succeeds exactly when the named decoding does, and then
/// holds that map. On failure it returns postcard's error message.
#[verifier::external_body]
fn decode_users(bytes: &[u8]) -> (r: Result<HashMap<u16, String>, String>)
    ensures
        r is Ok <==> postcard_users(bytes@) is Some,
        r matches Ok(m) ==> postcard_users(bytes@) == Some(m.deep_view()),
{
    postcard::from_bytes::<HashMap<u16, String>>(bytes).map_err(|e| format!("{}", e))
}

/// The set-echo-availability flag that a command's data (its number, then
/// one byte, 0 or 1) stands for, if any.
pub open spec fn echo_availability_from_bytes(data: Seq<u8>) -> Option<bool> {
    if data.len() != 2 {
        None
    } else if data[1] == 0 {
        Some(false)
    } else if data[1] == 1 {
        Some(true)
    } else {
        None
    }
}

impl NetworkCommand for DefaultCommand {
    open spec fn parse_accepts(data: Seq<u8>) -> bool {
        true
    }

    fn number(&self) -> (n: u8)
        ensures
            n == 0,
    {
        DefaultCommand::ID
    }

    fn serialize(&self) -> (r: Result<Vec<u8>, Failure>)
        ensures
            r matches Ok(b) && b@ == Seq::<u8>::empty(),
    {
        Ok(Vec::new())
    }

    fn parse(data: Vec<u8>) -> (r: Result<DefaultCommand, Failure>)
        ensures
            r == Ok::<DefaultCommand, Failure>(DefaultCommand {  }),
    {
        Ok(DefaultCommand {  })
    }

    fn query_or_notify(&self) -> (q: QueryOrNotify)
        ensures
            q == QueryOrNotify::Query,
    {
        QueryOrNotify::Query
    }
}

impl NetworkCommand for GetOnlineUsers {
    open spec fn parse_accepts(data: Seq<u8>) -> bool {
        true
    }

    fn number(&self) -> (n: u8)
        ensures
            n == 5,
    {
        GetOnlineUsers::ID
    }

    fn serialize(&self) -> (r: Result<Vec<u8>, Failure>)
        ensures
            r matches Ok(b) && b@ == Seq::<u8>::empty(),
    {
        Ok(Vec::new())
    }

    fn parse(data: Vec<u8>) -> (r: Result<GetOnlineUsers, Failure>)
        ensures
            r == Ok::<GetOnlineUsers, Failure>(GetOnlineUsers {  }),
    {
        Ok(GetOnlineUsers {  })
    }

    fn query_or_notify(&self) -> (q: QueryOrNotify)
        ensures
            q == QueryOrNotify::Query,
    {
        QueryOrNotify::Query
    }
}

impl NetworkCommand for Echo {
    /// The parser reads the echo type at the second byte.
    open spec fn parse_accepts(data: Seq<u8>) -> bool {
        data.len() >= 2
    }

    fn number(&self) -> (n: u8)
        ensures
            n == 2,
    {
        Echo::ID
    }

    fn serialize(&self) -> (r: Result<Vec<u8>, Failure>)
        ensures
            r matches Ok(b) && b@ == seq![echo_type_byte(self.echo_type)] + encode_utf8(
                self.echo_target@,
            ),
    {
        let mut data: Vec<u8> = Vec::new();
        data.push(self.echo_type.as_byte());
        let bytes = self.echo_target.as_str().as_bytes();
        let n = bytes.len();
        for i in 0..n
            invariant
                n == bytes@.len(),
                bytes@ == encode_utf8(self.echo_target@),
                data@ == seq![echo_type_byte(self.echo_type)] + bytes@.subrange(0, i as int),
        {
            data.push(bytes[i]);
            assert(bytes@.subrange(0, i + 1) =~= bytes@.subrange(0, i as int).push(bytes@[i as int]));
        }
        assert(bytes@.subrange(0, n as int) =~= bytes@);
        Ok(data)
    }

    fn parse(data: Vec<u8>) -> (r: Result<Echo, Failure>)
        ensures
            match echo_type_from_byte(data@[1]) {
                None => r matches Err(f) && f.kind() == FailureType::Warning && f.error_text()
                    == "invalid echotype"@,
                Some(t) => if valid_utf8(data@.skip(2)) {
                    r matches Ok(e) && e.echo_type == t && e.echo_target@ == decode_utf8(
                        data@.skip(2),
                    )
                } else {
                    r matches Err(f) && f.kind() == FailureType::Warning
                        && "failed to parse echo target: "@.is_prefix_of(f.error_text())
                },
            },
    {
        let echo_type = EchoType::parse(data[1])?;
        let mut target_data: Vec<u8> = Vec::new();
        let n = data.len();
        for i in 2..n
            invariant
                n == data@.len(),
                target_data@ == data@.subrange(2, i as int),
        {
            target_data.push(data[i]);
            assert(data@.subrange(2, i + 1) =~= data@.subrange(2, i as int).push(data@[i as int]));
        }
        assert(target_data@ =~= data@.skip(2));
        match decode_utf8_strict(target_data) {
            Ok(echo_target) => Ok(Echo { echo_type, echo_target }),
            Err(e) => {
                let mut msg = String::from_str("failed to parse echo target: ");
                msg.append(e.as_str());
                Err(Failure::new(msg, FailureType::Warning))
            },
        }
    }

    fn query_or_notify(&self) -> (q: QueryOrNotify)
        ensures
            q == QueryOrNotify::Query,
    {
        QueryOrNotify::Query
    }
}

impl NetworkCommand for OnlineUsers {
    /// The parser skips the first byte.
    open spec fn parse_accepts(data: Seq<u8>) -> bool {
        data.len() >= 1
    }

    fn number(&self) -> (n: u8)
        ensures
            n == 3,
    {
        OnlineUsers::ID
    }

    fn serialize(&self) -> (r: Result<Vec<u8>, Failure>)
        ensures
            r is Ok <==> postcard_users_len(self.users.deep_view()) <= USERS_BUFFER_BYTES,
            r matches Ok(b) ==> b@.len() == postcard_users_len(self.users.deep_view())
                && postcard_users(b@) == Some(self.users.deep_view()),
            r matches Err(f) ==> f.kind() == FailureType::Warning
                && "failed to serialize OnlineUsers: "@.is_prefix_of(f.error_text()),
    {
        match encode_users(&self.users, USERS_BUFFER_BYTES) {
            Ok(b) => Ok(b),
            Err(e) => {
                let mut msg = String::from_str("failed to serialize OnlineUsers: ");
                msg.append(e.as_str());
                Err(Failure::new(msg, FailureType::Warning))
            },
        }
    }

    fn parse(data: Vec<u8>) -> (r: Result<OnlineUsers, Failure>)
        ensures
            match postcard_users(data@.skip(1)) {
                Some(m) => r matches Ok(o) && o.users.deep_view() == m,
                None => r matches Err(f) && f.kind() == FailureType::Warning
                    && "failed to parse OnlineUsers: "@.is_prefix_of(f.error_text()),
            },
    {
        let rest = &data.as_slice()[1..data.len()];
        assert(rest@ == data@.skip(1));
        match decode_users(rest) {
            Ok(users) => Ok(OnlineUsers { users }),
            Err(e) => {
                let mut msg = String::from_str("failed to parse OnlineUsers: ");
                msg.append(e.as_str());
                Err(Failure::new(msg, FailureType::Warning))
            },
        }
    }

    fn query_or_notify(&self) -> (q: QueryOrNotify)
        ensures
            q == QueryOrNotify::Query,
    {
        QueryOrNotify::Query
    }
}

impl NetworkCommand for SetEchoAvailability {
    open spec fn parse_accepts(data: Seq<u8>) -> bool {
        true
    }

    fn number(&self) -> (n: u8)
        ensures
            n == 6,
    {
        SetEchoAvailability::ID
    }

    fn serialize(&self) -> (r: Result<Vec<u8>, Failure>)
        ensures
            r matches Ok(b) && b@ == seq![if self.0 { 1u8 } else { 0u8 }],
    {
        let mut data: Vec<u8> = Vec::new();
        data.push(if self.0 { 1u8 } else { 0u8 });
        Ok(data)
    }

    fn parse(data: Vec<u8>) -> (r: Result<SetEchoAvailability, Failure>)
        ensures
            match echo_availability_from_bytes(data@) {
                Some(b) => r == Ok::<SetEchoAvailability, Failure>(SetEchoAvailability(b)),
                None => r matches Err(f) && f.kind() == FailureType::Warning && f.error_text() == (
                if data@.len() != 2 {
                    "invalid data length for SetEchoAvailability"@
                } else {
                    "invalid value for SetEchoAvailability"@
                }),
            },
    {
        if data.len() != 2 {
            return Err(
                Failure::new(
                    String::from_str("invalid data length for SetEchoAvailability"),
                    FailureType::Warning,
                ),
            );
        }
        if data[1] == 0 {
            Ok(SetEchoAvailability(false))
        } else if data[1] == 1 {
            Ok(SetEchoAvailability(true))
        } else {
            Err(
                Failure::new(
                    String::from_str("invalid value for SetEchoAvailability"),
                    FailureType::Warning,
                ),
            )
        }
    }

    fn query_or_notify(&self) -> (q: QueryOrNotify)
        ensures
            q == QueryOrNotify::Notify,
    {
        QueryOrNotify::Notify
    }
}

} // verus!

verus! {

/// The command carried by a packet.
#[derive(Debug)]
pub enum Payload {
    Default(DefaultCommand),
    Echo(Echo),
    OnlineUsers(OnlineUsers),
    GetOnlineUsers(GetOnlineUsers),
    SetEchoAvailability(SetEchoAvailability),
}

/// A command as a mathematical value.
pub enum PayloadView {
    Default,
    Echo(EchoType, Seq<char>),
    OnlineUsers(Map<u16, Seq<char>>),
    GetOnlineUsers,
    SetEchoAvailability(bool),
}

impl View for Payload {
    type V = PayloadView;

    open spec fn view(&self) -> PayloadView {
        match self {
            Payload::Default(_) => PayloadView::Default,
            Payload::Echo(e) => PayloadView::Echo(e.echo_type, e.echo_target@),
            Payload::OnlineUsers(o) => PayloadView::OnlineUsers(o.users.deep_view()),
            Payload::GetOnlineUsers(_) => PayloadView::GetOnlineUsers,
            Payload::SetEchoAvailability(s) => PayloadView::SetEchoAvailability(s.0),
        }
    }
}

/// The number a command is known by.
pub open spec fn payload_number(p: PayloadView) -> u8 {
    match p {
        PayloadView::Default => 0,
        PayloadView::Echo(_, _) => 2,
        PayloadView::OnlineUsers(_) => 3,
        PayloadView::GetOnlineUsers => 5,
        PayloadView::SetEchoAvailability(_) => 6,
    }
}

/// Whether `body` is what a command's own serializer may write for it (for
/// the online users, any encoding that postcard decodes back to the map).
pub open spec fn body_encodes(p: PayloadView, body: Seq<u8>) -> bool {
    match p {
        PayloadView::Default => body == Seq::<u8>::empty(),
        PayloadView::GetOnlineUsers => body == Seq::<u8>::empty(),
        PayloadView::Echo(t, target) => body == seq![echo_type_byte(t)] + encode_utf8(target),
        PayloadView::OnlineUsers(m) => body.len() == postcard_users_len(m) && postcard_users(body) == Some(m),
        PayloadView::SetEchoAvailability(b) => body == seq![if b { 1u8 } else { 0u8 }],
    }
}

/// Whether a command's own serializer succeeds on it: every command but the
/// online users always does; those do where their encoding fits in
/// `USERS_BUFFER_BYTES` bytes.
pub open spec fn payload_fits(p: PayloadView) -> bool {
    match p {
        PayloadView::OnlineUsers(m) => postcard_users_len(m) <= USERS_BUFFER_BYTES,
        _ => true,
    }
}

/// The inputs on which `parse_command` does its work: it reads the command
/// number at the first byte, and an echo's type at the second.
pub open spec fn command_accepts(data: Seq<u8>) -> bool {
    data.len() >= 1 && (data[0] == 2 ==> data.len() >= 2)
}

/// The command that `parse_command` reads from `data`, or `None` where it fails.
/// Each command's parser is handed the whole data, command number included.
pub open spec fn command_from_bytes(data: Seq<u8>) -> Option<PayloadView> {
    if data[0] == 0 {
        Some(PayloadView::Default)
    } else if data[0] == 2 {
        match echo_type_from_byte(data[1]) {
            Some(t) => if valid_utf8(data.skip(2)) {
                Some(PayloadView::Echo(t, decode_utf8(data.skip(2))))
            } else {
                None
            },
            None => None,
        }
    } else if data[0] == 3 {
        match postcard_users(data.skip(1)) {
            Some(m) => Some(PayloadView::OnlineUsers(m)),
            None => None,
        }
    } else if data[0] == 5 {
        Some(PayloadView::GetOnlineUsers)
    } else if data[0] == 6 {
        match echo_availability_from_bytes(data) {
            Some(b) => Some(PayloadView::SetEchoAvailability(b)),
            None => None,
        }
    } else {
        None
    }
}

impl Payload {
    pub fn number(&self) -> (n: u8)
        ensures
            n == payload_number(self@),
    {
        match self {
            Payload::Default(c) => c.number(),
            Payload::Echo(c) => c.number(),
            Payload::OnlineUsers(c) => c.number(),
            Payload::GetOnlineUsers(c) => c.number(),
            Payload::SetEchoAvailability(c) => c.number(),
        }
    }

    /// The command's own bytes, without its number.
    pub fn serialize(&self) -> (r: Result<Vec<u8>, Failure>)
        ensures
            r matches Ok(b) ==> body_encodes(self@, b@),
            r is Ok <==> payload_fits(self@),
            r matches Err(f) ==> f.kind() == FailureType::Warning,
    {
        match self {
            Payload::Default(c) => c.serialize(),
            Payload::Echo(c) => c.serialize(),
            Payload::OnlineUsers(c) => c.serialize(),
            Payload::GetOnlineUsers(c) => c.serialize(),
            Payload::SetEchoAvailability(c) => c.serialize(),
        }
    }

    pub fn query_or_notify(&self) -> (q: QueryOrNotify)
        ensures
            q == (if self@ is SetEchoAvailability {
                QueryOrNotify::Notify
            } else {
                QueryOrNotify::Query
            }),
    {
        match self {
            Payload::Default(c) => c.query_or_notify(),
            Payload::Echo(c) => c.query_or_notify(),
            Payload::OnlineUsers(c) => c.query_or_notify(),
            Payload::GetOnlineUsers(c) => c.query_or_notify(),
            Payload::SetEchoAvailability(c) => c.query_or_notify(),
        }
    }
}

/// Reads the command in `data`, whose first byte is the command number.
pub fn parse_command(data: Vec<u8>) -> (r: Result<Payload, Failure>)
    requires
        command_accepts(data@),
    ensures
        r is Ok <==> command_from_bytes(data@) is Some,
        r matches Ok(p) ==> Some(p@) == command_from_bytes(data@),
        r matches Err(f) ==> f.kind() == FailureType::Warning,
        !(data@[0] == 0 || data@[0] == 2 || data@[0] == 3 || data@[0] == 5 || data@[0] == 6)
            ==> (r matches Err(f) && f.error_text() == "invalid command"@),
{
    let cmd_number = data[0];
    if cmd_number == DefaultCommand::ID {
        let c = DefaultCommand::parse(data)?;
        Ok(Payload::Default(c))
    } else if cmd_number == Echo::ID {
        let c = Echo::parse(data)?;
        Ok(Payload::Echo(c))
    } else if cmd_number == OnlineUsers::ID {
        let c = OnlineUsers::parse(data)?;
        Ok(Payload::OnlineUsers(c))
    } else if cmd_number == GetOnlineUsers::ID {
        let c = GetOnlineUsers::parse(data)?;
        Ok(Payload::GetOnlineUsers(c))
    } else if cmd_number == SetEchoAvailability::ID {
        let c = SetEchoAvailability::parse(data)?;
        Ok(Payload::SetEchoAvailability(c))
    } else {
        Err(Failure::new(String::from_str("invalid command"), FailureType::Warning))
    }
}

/// A command as it is sent: its number followed by its own bytes.
pub fn serialize(cmd: &Payload) -> (r: Result<Vec<u8>, Failure>)
    ensures
        r matches Ok(b) ==> b@.len() >= 1 && b@[0] == payload_number(cmd@) && body_encodes(
            cmd@,
            b@.skip(1),
        ),
        r is Ok <==> payload_fits(cmd@),
        r matches Err(f) ==> f.kind() == FailureType::Warning,
{
    let mut data: Vec<u8> = Vec::new();
    data.push(cmd.number());
    let mut body = cmd.serialize()?;
    let ghost b = body@;
    data.append(&mut body);
    assert(data@.skip(1) =~= b);
    Ok(data)
}

/// Every command reads back from what `serialize` writes for it: its number
/// followed by its own bytes.
pub proof fn lemma_command_round_trip(p: PayloadView, body: Seq<u8>)
    requires
        body_encodes(p, body),
    ensures
        command_accepts(seq![payload_number(p)] + body),
        command_from_bytes(seq![payload_number(p)] + body) == Some(p),
{
    let data = seq![payload_number(p)] + body;
    assert(data.skip(1) =~= body);
    match p {
        PayloadView::Echo(t, target) => {
            assert(data.skip(2) =~= encode_utf8(target));
        },
        _ => {},
    }
}

} // verus!
