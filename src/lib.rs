//! Core of a peer-to-peer overlay node: wire framing, the signed message
//! envelope, node identity, duplicate suppression, the engine's decisions
//! over its peer table, the rendezvous directory and command parsing.

pub mod octets;
pub mod frame;
pub mod codec;
pub mod messages;
pub mod identity;
pub mod dedup;
pub mod text;
pub mod engine;
pub mod commands;
pub mod rendezvous;
pub mod discovery;
pub mod events;

pub use codec::SentinelCodec;
pub use engine::{PeerState, SentinelNode};
pub use events::SentinelEvent;
