use vstd::prelude::*;
use vstd::string::*;
use vstd::utf8::*;

use crate::commands::{
    body_encodes, payload_fits, command_accepts, command_from_bytes, lemma_command_round_trip, parse_command,
    payload_number, serialize, Payload, PayloadView,
};
use crate::failure::{Failure, FailureType};
use crate::text::{
    decode_utf8_lossy, lemma_padded_text_round_trip, no_outer_nul, trim_char, trim_nul,
    lossy_text, zero_padded,
};

verus! {

broadcast use vstd::utf8::group_utf8_lib;

/// The protocol version that packets are written with.
pub const NETWORK_VERSION: [u8; 3] = [0, 0, 0];

/// Bytes of the user name field.
pub const USERNAME_BYTES: usize = 32;

/// Bytes of the group field.
pub const GROUP_BYTES: usize = 16;

/// The protocol version as a sequence of bytes.
pub open spec fn network_version() -> Seq<u8> {
    seq![0u8, 0u8, 0u8]
}

/// A message between client and server.
#[derive(Debug)]
pub struct Packet {
    pub version: [u8; 3],
    pub username: String,
    pub group: String,
    pub payload: Payload,
}

/// A packet as a mathematical value.
pub struct PacketView {
    pub version: Seq<u8>,
    pub username: Seq<char>,
    pub group: Seq<char>,
    pub payload: PayloadView,
}

impl View for Packet {
    type V = PacketView;

    open spec fn view(&self) -> PacketView {
        PacketView {
            version: self.version@,
            username: self.username@,
            group: self.group@,
            payload: self.payload@,
        }
    }
}

/// Whether a user name and a group fit their fields (32 and 16 bytes of UTF-8).
pub open spec fn params_ok(username: Seq<char>, group: Seq<char>) -> bool {
    encode_utf8(username).len() <= 32 && encode_utf8(group).len() <= 16
}

/// The failure text that `check_parameters` gives for a user name and group
/// that do not fit.
pub open spec fn params_error(username: Seq<char>, group: Seq<char>) -> Seq<char> {
    if encode_utf8(username).len() > 32 {
        "username too long"@
    } else {
        "group name too long"@
    }
}

/// The first 51 bytes of a packet: version, user name and group, each field
/// padded with zero bytes.
pub open spec fn packet_header(username: Seq<char>, group: Seq<char>) -> Seq<u8> {
    network_version() + zero_padded(encode_utf8(username), 32) + zero_padded(encode_utf8(group), 16)
}

/// Whether `data` is what `Packet::serialize` may write for `p`: the header,
/// the command number twice, then the command's own bytes.
pub open spec fn packet_encodes(p: PacketView, data: Seq<u8>) -> bool {
    &&& data.len() >= 53
    &&& data.subrange(0, 51) == packet_header(p.username, p.group)
    &&& data[51] == payload_number(p.payload)
    &&& data[52] == payload_number(p.payload)
    &&& body_encodes(p.payload, data.skip(53))
}

/// The inputs on which `Packet::parse` does its work: shorter than 52 bytes
/// (refused), or longer, with a command that `parse_command` can read from
/// byte 52 on.
pub open spec fn packet_accepts(data: Seq<u8>) -> bool {
    data.len() < 52 || (data.len() > 52 && command_accepts(data.skip(52)))
}

/// The packet that `Packet::parse` reads from `data`, or `None` where it fails.
/// Byte 51 is not read.
pub open spec fn packet_from_bytes(data: Seq<u8>) -> Option<PacketView> {
    if data.len() < 52 {
        None
    } else {
        match command_from_bytes(data.skip(52)) {
            Some(payload) => Some(
                PacketView {
                    version: data.subrange(0, 3),
                    username: trim_char(lossy_text(data.subrange(3, 35)), '\0'),
                    group: trim_char(lossy_text(data.subrange(35, 51)), '\0'),
                    payload,
                },
            ),
            None => None,
        }
    }
}

/// Refuses a user name longer than 32 bytes or a group longer than 16.
pub fn check_parameters(username: &str, group: &str) -> (r: Result<(), Failure>)
    ensures
        r is Ok <==> params_ok(username@, group@),
        r matches Err(f) ==> f.kind() == FailureType::Warning && f.error_text() == params_error(
            username@,
            group@,
        ) && f.context_text() == Seq::<char>::empty(),
{
    if username.as_bytes().len() > USERNAME_BYTES {
        return Err(Failure::new(String::from_str("username too long"), FailureType::Warning));
    }
    if group.as_bytes().len() > GROUP_BYTES {
        return Err(Failure::new(String::from_str("group name too long"), FailureType::Warning));
    }
    Ok(())
}

/// Appends `text`'s bytes padded with zero bytes to `width` bytes.
fn push_padded(data: &mut Vec<u8>, text: &str, width: usize)
    requires
        text.spec_bytes().len() <= width,
    ensures
        final(data)@ == old(data)@ + zero_padded(text.spec_bytes(), width as nat),
{
    let bytes = text.as_bytes();
    let n = bytes.len();
    let ghost start = data@;
    let ghost expected = zero_padded(text.spec_bytes(), width as nat);
    assert(expected.len() == width);
    for i in 0..width
        invariant
            n == bytes@.len(),
            bytes@ == text.spec_bytes(),
            n <= width,
            expected == zero_padded(text.spec_bytes(), width as nat),
            expected.len() == width,
            data@ == start + expected.subrange(0, i as int),
    {
        if i < n {
            data.push(bytes[i]);
        } else {
            data.push(0);
        }
        assert(expected.subrange(0, i + 1) =~= expected.subrange(0, i as int).push(expected[i as int]));
    }
    assert(expected.subrange(0, width as int) =~= expected);
}

impl Packet {
    /// A packet of the current protocol version from the given user and group.
    pub fn new(username: &str, group: &str, payload: Payload) -> (r: Result<Packet, Failure>)
        ensures
            r is Ok <==> params_ok(username@, group@),
            r matches Ok(p) ==> (p@ == (PacketView {
                version: network_version(),
                username: username@,
                group: group@,
                payload: payload@,
            })),
            r matches Err(f) ==> f.kind() == FailureType::Warning && f.error_text() == params_error(
                username@,
                group@,
            ),
    {
        check_parameters(username, group)?;
        let p = Packet {
            version: NETWORK_VERSION,
            username: String::from_str(username),
            group: String::from_str(group),
            payload,
        };
        assert(p.version@ =~= network_version());
        Ok(p)
    }

    /// The packet's bytes: the current protocol version, the user name and the
    /// group padded to 32 and 16 bytes, the command number, then the command as
    /// `serialize` writes it (its number again, then its own bytes).
    pub fn serialize(&self) -> (r: Result<Vec<u8>, Failure>)
        ensures
            !params_ok(self.username@, self.group@) ==> (r matches Err(f) && f.kind()
                == FailureType::Warning && f.error_text() == params_error(
                self.username@,
                self.group@,
            )),
            r matches Ok(d) ==> packet_encodes(self@, d@),
            r is Ok <==> params_ok(self.username@, self.group@) && payload_fits(self.payload@),
            r matches Err(f) ==> f.kind() == FailureType::Warning,
    {
        check_parameters(self.username.as_str(), self.group.as_str())?;
        let mut data: Vec<u8> = Vec::new();
        data.push(NETWORK_VERSION[0]);
        data.push(NETWORK_VERSION[1]);
        data.push(NETWORK_VERSION[2]);
        assert(data@ =~= network_version());
        push_padded(&mut data, self.username.as_str(), USERNAME_BYTES);
        push_padded(&mut data, self.group.as_str(), GROUP_BYTES);
        let ghost header = data@;
        assert(header =~= packet_header(self.username@, self.group@));
        data.push(self.payload.number());
        let mut cmd = serialize(&self.payload)?;
        let ghost c = cmd@;
        data.append(&mut cmd);
        assert(data@.subrange(0, 51) =~= header);
        assert(data@.skip(53) =~= c.skip(1));
        Ok(data)
    }

    /// Reads a packet: version from bytes 0..3, user name from 3..35, group
    /// from 35..51 (each decoded leniently and trimmed of NULs), and the
    /// command from byte 52 on.
    pub fn parse(data: &[u8]) -> (r: Result<Packet, Failure>)
        requires
            packet_accepts(data@),
        ensures
            r is Ok <==> packet_from_bytes(data@) is Some,
            r matches Ok(p) ==> Some(p@) == packet_from_bytes(data@),
            r matches Err(f) ==> f.kind() == FailureType::Warning,
            data@.len() < 52 ==> (r matches Err(f) && f.error_text()
                == "Data too short to be a valid packet"@),
    {
        if data.len() < 52 {
            return Err(
                Failure::new(
                    String::from_str("Data too short to be a valid packet"),
                    FailureType::Warning,
                ),
            );
        }
        let version: [u8; 3] = [data[0], data[1], data[2]];
        let name_text = decode_utf8_lossy(&data[3..35]);
        let username = trim_nul(name_text.as_str());
        let group_text = decode_utf8_lossy(&data[35..51]);
        let group = trim_nul(group_text.as_str());
        let mut rest: Vec<u8> = Vec::new();
        let n = data.len();
        for i in 52..n
            invariant
                n == data@.len(),
                rest@ == data@.subrange(52, i as int),
        {
            rest.push(data[i]);
            assert(data@.subrange(52, i + 1) =~= data@.subrange(52, i as int).push(data@[i as int]));
        }
        assert(rest@ =~= data@.skip(52));
        let payload = parse_command(rest)?;
        let p = Packet { version, username, group, payload };
        assert(p.version@ =~= data@.subrange(0, 3));
        Ok(p)
    }

    pub fn version(&self) -> (v: &[u8; 3])
        ensures
            v == &self.version,
    {
        &self.version
    }

    pub fn username(&self) -> (u: &str)
        ensures
            u@ == self.username@,
    {
        self.username.as_str()
    }

    pub fn group(&self) -> (g: &str)
        ensures
            g@ == self.group@,
    {
        self.group.as_str()
    }

    pub fn payload(&self) -> (p: &Payload)
        ensures
            p == &self.payload,
    {
        &self.payload
    }
}

/// What `Packet::serialize` writes, `Packet::parse` reads back as the same
/// packet: for every packet of the current version whose user name and group
/// fit their fields and neither start nor end with NUL.
pub proof fn lemma_packet_round_trip(p: PacketView, data: Seq<u8>)
    requires
        p.version == network_version(),
        params_ok(p.username, p.group),
        no_outer_nul(p.username),
        no_outer_nul(p.group),
        packet_encodes(p, data),
    ensures
        packet_accepts(data),
        packet_from_bytes(data) == Some(p),
{
    let header = packet_header(p.username, p.group);
    let u = zero_padded(encode_utf8(p.username), 32);
    let g = zero_padded(encode_utf8(p.group), 16);
    assert(u.len() == 32);
    assert(g.len() == 16);
    assert(data.subrange(0, 3) =~= header.subrange(0, 3));
    assert(data.subrange(3, 35) =~= header.subrange(3, 35));
    assert(header.subrange(3, 35) =~= u);
    assert(data.subrange(35, 51) =~= header.subrange(35, 51));
    assert(header.subrange(35, 51) =~= g);
    lemma_padded_text_round_trip(p.username, 32);
    lemma_padded_text_round_trip(p.group, 16);
    assert(data.subrange(0, 3) =~= network_version());
    let body = data.skip(53);
    lemma_command_round_trip(p.payload, body);
    assert(data.skip(52) =~= seq![payload_number(p.payload)] + body);
}

} // verus!
