//! The wire boundary: building and decoding Bitcoin peer-to-peer message
//! envelopes.
//!
//! The binary format itself (everything past the fixed envelope header) is a
//! collaborator's concern: the `bitcoin` crate produces and parses it.  The
//! library names those byte sequences with uninterpreted spec functions and
//! relies on the crate's consensus codec round-tripping them; everything the
//! handshake logic does with a decoded message is verified against the
//! [`DecodedMessage`] value handed back.

use vstd::prelude::*;

use crate::addr::PeerAddr;
use crate::params::NetworkParameters;

use bitcoin::consensus::encode::deserialize;
use bitcoin::consensus::encode::serialize;
use bitcoin::network::address::Address;
use bitcoin::network::constants::ServiceFlags;
use bitcoin::network::message::NetworkMessage;
use bitcoin::network::message::RawNetworkMessage;
use bitcoin::network::message_network::VersionMessage;

verus! {

/// Number of bytes in a message envelope header: 4 magic, 12 command,
/// 4 payload length, 4 checksum.
pub const HEADER_LEN: usize = 24;

/// Byte offset of the little-endian payload length inside the header.
pub const LEN_OFFSET: usize = 16;

/// Longest user agent a `version` message of this library may announce:
/// Bitcoin Core's own cap on subversion strings.  The consensus encoder
/// accepts longer strings, but the decoder reads variable-length fields
/// through a reader capped at 4,000,000 bytes, so only messages well below
/// that cap are guaranteed to decode back; this library stays under the
/// protocol's own limit.
pub const MAX_USER_AGENT_LEN: usize = 256;

/// What the decoder made of one message envelope, reduced to what the
/// handshake needs: the envelope magic and which command arrived.
#[derive(Clone, Copy, Debug, PartialEq, Eq, Structural)]
pub enum MessagePayload {
    /// A `version` message; carries the peer's announced protocol version.
    Version(u32),
    /// A `verack` message.
    Verack,
    /// Any other command.  During the handshake window every such message is
    /// a protocol violation, so its content does not matter.
    Other,
}

/// A decoded message envelope.
#[derive(Clone, Copy, Debug, PartialEq, Eq, Structural)]
pub struct DecodedMessage {
    /// The 4-byte network magic the envelope opened with.
    pub magic: u32,
    /// The command the envelope carried.
    pub payload: MessagePayload,
}

/// The byte sequence of a `version` message envelope with the given envelope
/// magic, announced protocol version, service flags, user agent, timestamp,
/// anti-loop nonce, and receiver/sender wire addresses.  The encoding is the
/// `bitcoin` crate's consensus encoding; it depends on these arguments alone.
pub uninterp spec fn version_wire_bytes(
    magic: u32,
    protocol_version: u32,
    services: u64,
    user_agent: Seq<char>,
    timestamp: i64,
    nonce: u64,
    receiver: Seq<u16>,
    receiver_port: u16,
    sender: Seq<u16>,
    sender_port: u16,
) -> Seq<u8>;

/// The byte sequence of a `verack` message envelope under the given envelope
/// magic; `verack` has an empty body, so the magic determines it alone.
pub uninterp spec fn verack_wire_bytes(magic: u32) -> Seq<u8>;

/// Relies on `bitcoin::consensus::encode::serialize` of a `RawNetworkMessage`
/// holding a `version` payload built field by field from the arguments:
/// the result is a function of the arguments alone.  The user agent is kept
/// under [`MAX_USER_AGENT_LEN`], far below the decoder's 4,000,000-byte
/// read cap, so the encoding is also guaranteed to decode back.
#[verifier::external_body]
fn serialize_version(
    params: &NetworkParameters,
    local: &PeerAddr,
    remote: &PeerAddr,
    timestamp: i64,
    nonce: u64,
) -> (r: Vec<u8>)
    requires
        params.user_agent@.len() <= MAX_USER_AGENT_LEN,
    ensures
        r@ == version_wire_bytes(
            params.magic,
            params.protocol_version,
            params.services,
            params.user_agent@,
            timestamp,
            nonce,
            remote.segments@,
            remote.port,
            local.segments@,
            local.port,
        ),
{
    let flags = ServiceFlags::from(params.services);
    let receiver = Address { services: flags, address: remote.segments, port: remote.port };
    let sender = Address { services: flags, address: local.segments, port: local.port };
    let payload = VersionMessage {
        version: params.protocol_version, services: flags, timestamp, receiver, sender,
        nonce, user_agent: params.user_agent.clone(), start_height: 0, relay: false,
    };
    serialize(&RawNetworkMessage { magic: params.magic, payload: NetworkMessage::Version(payload) })
}

/// Relies on `bitcoin::consensus::encode::serialize` of a `RawNetworkMessage`
/// holding the empty `verack` payload: the result is a function of the magic
/// alone.
#[verifier::external_body]
fn serialize_verack(params: &NetworkParameters) -> (r: Vec<u8>)
    ensures
        r@ == verack_wire_bytes(params.magic),
{
    serialize(&RawNetworkMessage { magic: params.magic, payload: NetworkMessage::Verack })
}

/// Relies on `bitcoin::consensus::encode::deserialize` of a
/// `RawNetworkMessage` for decoding one whole message envelope, and on the
/// crate's consensus codec being a round trip: decoding the bytes its encoder
/// produced for a `verack`, or for a `version` whose user agent stays under
/// [`MAX_USER_AGENT_LEN`] (the decoder reads variable-length fields through
/// a 4,000,000-byte-capped reader, so the round trip holds only below that),
/// yields that message back, with the same magic and, for `version`, the
/// same protocol-version field.
#[verifier::external_body]
fn deserialize_message(bytes: &Vec<u8>) -> (r: Result<DecodedMessage, String>)
    ensures
        (forall|
            magic: u32,
            protocol_version: u32,
            services: u64,
            user_agent: Seq<char>,
            timestamp: i64,
            nonce: u64,
            receiver: Seq<u16>,
            receiver_port: u16,
            sender: Seq<u16>,
            sender_port: u16,
        |
            user_agent.len() <= MAX_USER_AGENT_LEN && bytes@ == #[trigger] version_wire_bytes(
                magic,
                protocol_version,
                services,
                user_agent,
                timestamp,
                nonce,
                receiver,
                receiver_port,
                sender,
                sender_port,
            ) ==> r == Ok::<DecodedMessage, String>(
                (DecodedMessage { magic, payload: MessagePayload::Version(protocol_version) }),
            )),
        (forall|magic: u32|
            bytes@ == #[trigger] verack_wire_bytes(magic) ==> r == Ok::<DecodedMessage, String>(
                (DecodedMessage { magic, payload: MessagePayload::Verack }),
            )),
{
    match deserialize::<RawNetworkMessage>(bytes.as_slice()) {
        Ok(raw) => Ok(DecodedMessage {
            magic: raw.magic,
            payload: match raw.payload {
                NetworkMessage::Version(v) => MessagePayload::Version(v.version),
                NetworkMessage::Verack => MessagePayload::Verack,
                _ => MessagePayload::Other,
            },
        }),
        Err(e) => Err(e.to_string()),
    }
}

/// Build the `version` message announcing this node to `remote`, as seen from
/// `local`, under `params`.  The caller supplies the send time and the
/// anti-loop nonce, so the bytes are a function of the arguments alone.  The
/// user agent must stay under [`MAX_USER_AGENT_LEN`], the protocol's own cap
/// on subversion strings, which also keeps the message decodable.
pub fn build_version_message(
    params: &NetworkParameters,
    local: &PeerAddr,
    remote: &PeerAddr,
    timestamp: i64,
    nonce: u64,
) -> (r: Vec<u8>)
    requires
        params.user_agent@.len() <= MAX_USER_AGENT_LEN,
    ensures
        r@ == version_wire_bytes(
            params.magic,
            params.protocol_version,
            params.services,
            params.user_agent@,
            timestamp,
            nonce,
            remote.segments@,
            remote.port,
            local.segments@,
            local.port,
        ),
{
    serialize_version(params, local, remote, timestamp, nonce)
}

/// Build the `verack` acknowledgement under `params`.
pub fn build_verack_message(params: &NetworkParameters) -> (r: Vec<u8>)
    ensures
        r@ == verack_wire_bytes(params.magic),
{
    serialize_verack(params)
}

/// Decode one whole message envelope.  Decoding the bytes
/// [`build_version_message`] (whose user agent is under
/// [`MAX_USER_AGENT_LEN`]) or [`build_verack_message`] produced yields the
/// corresponding [`DecodedMessage`] back; on malformed input the decoder's
/// error text is returned.
pub fn decode_message(bytes: &Vec<u8>) -> (r: Result<DecodedMessage, String>)
    ensures
        (forall|
            magic: u32,
            protocol_version: u32,
            services: u64,
            user_agent: Seq<char>,
            timestamp: i64,
            nonce: u64,
            receiver: Seq<u16>,
            receiver_port: u16,
            sender: Seq<u16>,
            sender_port: u16,
        |
            user_agent.len() <= MAX_USER_AGENT_LEN && bytes@ == #[trigger] version_wire_bytes(
                magic,
                protocol_version,
                services,
                user_agent,
                timestamp,
                nonce,
                receiver,
                receiver_port,
                sender,
                sender_port,
            ) ==> r == Ok::<DecodedMessage, String>(
                (DecodedMessage { magic, payload: MessagePayload::Version(protocol_version) }),
            )),
        (forall|magic: u32|
            bytes@ == #[trigger] verack_wire_bytes(magic) ==> r == Ok::<DecodedMessage, String>(
                (DecodedMessage { magic, payload: MessagePayload::Verack }),
            )),
{
    deserialize_message(bytes)
}

/// The payload length a message envelope header announces: the little-endian
/// 32-bit value at [`LEN_OFFSET`].
pub open spec fn spec_header_payload_len(header: Seq<u8>) -> int {
    header[LEN_OFFSET as int] + header[LEN_OFFSET as int + 1] * 0x100
        + header[LEN_OFFSET as int + 2] * 0x10000 + header[LEN_OFFSET as int + 3] * 0x1000000
}

/// Read the announced payload length out of an envelope header, so a caller
/// that feeds [`decode_message`] knows how many payload bytes follow the
/// header on the stream.
pub fn header_payload_len(header: &Vec<u8>) -> (r: u32)
    requires
        header@.len() >= HEADER_LEN,
    ensures
        r == spec_header_payload_len(header@),
{
    let b0 = header[LEN_OFFSET] as u32;
    let b1 = header[LEN_OFFSET + 1] as u32;
    let b2 = header[LEN_OFFSET + 2] as u32;
    let b3 = header[LEN_OFFSET + 3] as u32;
    b0 + b1 * 0x100 + b2 * 0x10000 + b3 * 0x1000000
}

} // verus!
