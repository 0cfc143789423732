//! The rendezvous directory: Node IDs of registered nodes to the address
//! (text form) each registered from, and its answers to lookups.

use vstd::prelude::*;
use std::collections::hash_map::RandomState;
use crate::messages::{MessageContent, SentinelMessage, SignalingMessage};

verus! {

/// A concurrent map from Node ID to address text.
pub type DirectoryTable = dashmap::DashMap<String, String, RandomState>;

/// The entries of a directory table.
pub uninterp spec fn directory_entries(m: DirectoryTable) -> Map<Seq<char>, Seq<char>>;

/// Relies on dashmap::DashMap::new: an empty map.
#[verifier::external_body]
fn directory_new() -> (r: DirectoryTable)
    ensures
        directory_entries(r).dom().len() == 0 && directory_entries(r).dom().finite(),
{
    dashmap::DashMap::new()
}

/// Relies on dashmap::DashMap::insert, which replaces any entry under the same key.
#[verifier::external_body]
fn directory_insert(m: &mut DirectoryTable, node_id: String, addr: String)
    ensures
        directory_entries(*final(m)) == directory_entries(*old(m)).insert(node_id@, addr@),
{
    m.insert(node_id, addr);
}

/// Relies on dashmap::DashMap::remove.
#[verifier::external_body]
fn directory_remove(m: &mut DirectoryTable, node_id: &String)
    ensures
        directory_entries(*final(m)) == directory_entries(*old(m)).remove(node_id@),
{
    m.remove(node_id);
}

/// Relies on dashmap::DashMap::get: a copy of the address under `node_id`, if any.
#[verifier::external_body]
fn directory_get(m: &DirectoryTable, node_id: &String) -> (r: Option<String>)
    ensures
        r is Some <==> directory_entries(*m).contains_key(node_id@),
        r matches Some(a) ==> a@ == directory_entries(*m)[node_id@],
{
    m.get(node_id).map(|e| e.value().clone())
}

/// The text of the error answered to a lookup of an unknown Node ID.
pub open spec fn not_found_text() -> Seq<char> {
    seq!['P', 'e', 'e', 'r', ' ', 'n', 'o', 't', ' ', 'f', 'o', 'u', 'n', 'd']
}

/// The Node ID a first message registers, if it is a registration.
pub fn registration(msg: &SentinelMessage) -> (r: Option<String>)
    ensures
        r is Some <==> msg.content matches MessageContent::Signal(SignalingMessage::Register { .. }),
        r matches Some(id) ==> msg.content matches MessageContent::Signal(SignalingMessage::Register { node_id, .. }) && id == node_id,
{
    match &msg.content {
        MessageContent::Signal(SignalingMessage::Register { node_id, .. }) => Some(node_id.clone()),
        _ => None,
    }
}

/// The address a rendezvous answer tells this node to dial, if it is a peer response.
pub fn peer_response_target(msg: &SentinelMessage) -> (r: Option<String>)
    ensures
        r is Some <==> msg.content matches MessageContent::Signal(SignalingMessage::PeerResponse { .. }),
        r matches Some(a) ==> msg.content matches MessageContent::Signal(SignalingMessage::PeerResponse { public_addr, .. }) && a == public_addr,
{
    match &msg.content {
        MessageContent::Signal(SignalingMessage::PeerResponse { public_addr, .. }) => Some(public_addr.clone()),
        _ => None,
    }
}

pub struct SignalDirectory {
    pub entries: DirectoryTable,
}

impl SignalDirectory {
    pub open spec fn directory_view(&self) -> Map<Seq<char>, Seq<char>> {
        directory_entries(self.entries)
    }

    pub fn new() -> (r: Self)
        ensures
            r.directory_view().dom().len() == 0,
    {
        SignalDirectory { entries: directory_new() }
    }

    /// Records that `node_id` registered from `addr`.
    pub fn register(&mut self, node_id: String, addr: String)
        ensures
            final(self).directory_view() == old(self).directory_view().insert(node_id@, addr@),
    {
        directory_insert(&mut self.entries, node_id, addr);
    }

    /// Forgets `node_id` when its session ends.
    pub fn deregister(&mut self, node_id: &String)
        ensures
            final(self).directory_view() == old(self).directory_view().remove(node_id@),
    {
        directory_remove(&mut self.entries, node_id);
    }

    /// The answer to a message from the session of `sender_id`: a lookup gets
    /// the target's address, or an error when the target is not registered;
    /// other messages get none.
    pub fn process_signal(&self, msg: &SentinelMessage, sender_id: &String) -> (r: Option<SentinelMessage>)
        ensures
            !(msg.content matches MessageContent::Signal(SignalingMessage::LookupRequest { .. })) ==> r is None,
            msg.content matches MessageContent::Signal(SignalingMessage::LookupRequest { target_id }) ==> {
                &&& r matches Some(m)
                &&& m.sender@ == sender_id@
                &&& m.signature@.len() == 0
                &&& self.directory_view().contains_key(target_id@) ==> (m.content matches MessageContent::Signal(SignalingMessage::PeerResponse { peer_id, public_addr })
                    && peer_id@ == target_id@ && public_addr@ == self.directory_view()[target_id@])
                &&& !self.directory_view().contains_key(target_id@) ==> (m.content matches MessageContent::Signal(SignalingMessage::Error(e))
                    && e@ == not_found_text())
            },
    {
        proof {
            reveal_strlit("Peer not found");
        }
        match &msg.content {
            MessageContent::Signal(SignalingMessage::LookupRequest { target_id }) => {
                match directory_get(&self.entries, target_id) {
                    Some(addr) => {
                        let answer = SignalingMessage::PeerResponse {
                            peer_id: target_id.clone(),
                            public_addr: addr,
                        };
                        Some(SentinelMessage::new_signal(sender_id.clone(), answer))
                    },
                    None => {
                        let text = String::from_str("Peer not found");
                        assert(text@ =~= not_found_text());
                        Some(SentinelMessage::new_signal(sender_id.clone(), SignalingMessage::Error(text)))
                    },
                }
            },
            _ => None,
        }
    }
}

} // verus!
