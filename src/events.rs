//! High-level events the engine reports to an embedding user interface.

use vstd::prelude::*;

verus! {

#[derive(Debug, Clone, PartialEq, Eq)]
pub enum SentinelEvent {
    PeerConnected { peer_id: String, addr: String },
    PeerDisconnected { peer_id: String },
    ChatMessage { sender: String, text: String },
    SystemLog(String),
}

} // verus!
