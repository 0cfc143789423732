//! The message envelope and its contents, and the bytes its signature covers.

use vstd::prelude::*;
use vstd::utf8::encode_utf8;
use crate::octets::{append, append_le32, append_le64, le32_bytes, le64_bytes};

verus! {

/// Protocol version that this node stamps on the envelopes it creates.
pub const PROTOCOL_VERSION: u32 = 3;

/// A peer as shared in gossip. `address` is a socket address in text form (`ip:port`).
#[derive(Debug, Clone, PartialEq, Eq)]
pub struct PeerInfo {
    pub node_id: String,
    pub address: String,
    pub node_name: String,
    pub last_seen: u64,
}

/// Messages exchanged with the rendezvous service. Addresses are socket
/// addresses in text form (`ip:port`).
#[derive(Debug, Clone, PartialEq, Eq)]
pub enum SignalingMessage {
    Register { node_id: String, public_key: Vec<u8>, signature: Vec<u8> },
    LookupRequest { target_id: String },
    PeerResponse { peer_id: String, public_addr: String },
    PunchCommand { target_addr: String, timestamp_ns: u64 },
    Error(String),
}

#[derive(Debug, Clone, PartialEq, Eq)]
pub enum MessageContent {
    Chat(String),
    Handshake { public_key: Vec<u8>, node_name: String },
    PeerDiscovery(Vec<PeerInfo>),
    Signal(SignalingMessage),
    Ping,
    Pong,
    /// A peer announces that it is leaving, with its reason.
    Disconnect(String),
}

/// The signed envelope. `public_key` and `signature` are filled in when the
/// envelope is signed and are not covered by the signature.
#[derive(Debug, Clone, PartialEq, Eq)]
pub struct SentinelMessage {
    pub version: u32,
    /// The bytes of a version-4 UUID.
    pub id: [u8; 16],
    /// Hex Node ID of the author.
    pub sender: String,
    pub public_key: Vec<u8>,
    /// UNIX seconds.
    pub timestamp: u64,
    pub content: MessageContent,
    pub signature: Vec<u8>,
}

/// The bytes a signature covers: version (LE u32), id, sender (UTF-8),
/// timestamp (LE u64) and the serialized content.
pub open spec fn signed_bytes(
    version: u32,
    id: Seq<u8>,
    sender: Seq<char>,
    timestamp: u64,
    content_bytes: Seq<u8>,
) -> Seq<u8> {
    le32_bytes(version) + id + encode_utf8(sender) + le64_bytes(timestamp) + content_bytes
}

/// The signature domain of `m`, given the serialized form of its content.
pub open spec fn sig_domain(m: SentinelMessage, content_bytes: Seq<u8>) -> Seq<u8> {
    signed_bytes(m.version, m.id@, m.sender@, m.timestamp, content_bytes)
}

/// Whether `id` carries the version-4 and RFC 4122 variant bits of a random UUID.
pub open spec fn is_uuid_v4(id: Seq<u8>) -> bool {
    id[6] / 16 == 4 && id[8] / 64 == 2
}

/// Relies on uuid::Uuid::new_v4: the bytes of a fresh random UUID, with its
/// version and variant bits set.
#[verifier::external_body]
fn fresh_message_id() -> (r: [u8; 16])
    ensures
        r@[6] / 16 == 4 && r@[8] / 64 == 2,
{
    uuid::Uuid::new_v4().into_bytes()
}

/// Relies on std::time::SystemTime::elapsed, taken from the UNIX epoch: the
/// current time in whole seconds (0 if the clock stands before the epoch).
#[verifier::external_body]
fn unix_time_now() -> (r: u64) {
    std::time::UNIX_EPOCH.elapsed().map_or(0, |d| d.as_secs())
}

impl SentinelMessage {
    /// An unsigned envelope with the given id and timestamp.
    pub fn new_at(sender: String, content: MessageContent, id: [u8; 16], timestamp: u64) -> (r:
        Self)
        ensures
            r.version == PROTOCOL_VERSION,
            r.id == id,
            r.sender == sender,
            r.public_key@.len() == 0,
            r.timestamp == timestamp,
            r.content == content,
            r.signature@.len() == 0,
    {
        SentinelMessage {
            version: PROTOCOL_VERSION,
            id,
            sender,
            public_key: Vec::new(),
            timestamp,
            content,
            signature: Vec::new(),
        }
    }

    /// An unsigned envelope with a fresh random id, stamped with the current time.
    pub fn new(sender: String, content: MessageContent) -> (r: Self)
        ensures
            r.version == PROTOCOL_VERSION,
            is_uuid_v4(r.id@),
            r.sender == sender,
            r.public_key@.len() == 0,
            r.content == content,
            r.signature@.len() == 0,
    {
        let id = fresh_message_id();
        let timestamp = unix_time_now();
        Self::new_at(sender, content, id, timestamp)
    }

    /// An unsigned envelope carrying a signaling message.
    pub fn new_signal(sender: String, signal: SignalingMessage) -> (r: Self)
        ensures
            r.version == PROTOCOL_VERSION,
            is_uuid_v4(r.id@),
            r.sender == sender,
            r.public_key@.len() == 0,
            r.content == MessageContent::Signal(signal),
            r.signature@.len() == 0,
    {
        Self::new(sender, MessageContent::Signal(signal))
    }

    /// The bytes the signature covers; `content_bytes` is the serialized content.
    pub fn sig_hash(&self, content_bytes: &[u8]) -> (r: Vec<u8>)
        ensures
            r@ == sig_domain(*self, content_bytes@),
    {
        let mut data: Vec<u8> = Vec::new();
        append_le32(&mut data, self.version);
        append(&mut data, &self.id);
        append(&mut data, self.sender.as_str().as_bytes());
        append_le64(&mut data, self.timestamp);
        append(&mut data, content_bytes);
        assert(data@ =~= sig_domain(*self, content_bytes@));
        data
    }
}

} // verus!
