//! The node engine's state and decisions: the peer table, duplicate
//! suppression, the signature gate, the inbound state machine, heartbeat
//! eviction and gossip. Sockets, timers and queues are driven by the caller,
//! which hands in the current time in seconds of a monotonic clock.

use vstd::prelude::*;
use std::collections::hash_map::RandomState;
use crate::dedup::{lemma_repeat_is_duplicate, record, SeenMessages, SEEN_CAPACITY};
use crate::identity::{
    ed25519_accepts, ed25519_public_key, ed25519_signature, hex_text, node_id_for_key, node_id_of,
    signature_checks, NodeIdentity,
};
use crate::messages::{sig_domain, MessageContent, PeerInfo, SentinelMessage, SignalingMessage, PROTOCOL_VERSION};
use crate::text::{decimal_text, push_decimal};

verus! {

/// Seconds between heartbeat ticks.
pub const HEARTBEAT_INTERVAL_SECS: u64 = 20;

/// Seconds between gossip rounds.
pub const GOSSIP_INTERVAL_SECS: u64 = 30;

/// A peer silent for this many seconds is evicted at the next heartbeat.
pub const PEER_TIMEOUT_SECS: u64 = 60;

/// Seconds to wait before reconnecting to the rendezvous service.
pub const SIGNALER_RETRY_SECS: u64 = 5;

/// Seconds allowed for a TLS handshake.
pub const TLS_HANDSHAKE_TIMEOUT_SECS: u64 = 10;

/// One live connection, keyed in the peer table by the remote address text.
#[derive(Debug, Clone)]
pub struct PeerState {
    /// The remote's Node ID, "pending" until its handshake arrives.
    pub node_id: String,
    pub node_name: String,
    pub public_key: Option<Vec<u8>>,
    /// When the peer was last heard from, in seconds of the caller's monotonic clock.
    pub last_seen: u64,
}

/// What the engine knows of a peer, as plain values.
pub ghost struct PeerView {
    pub node_id: Seq<char>,
    pub node_name: Seq<char>,
    pub public_key: Option<Seq<u8>>,
    pub last_seen: u64,
}

impl View for PeerState {
    type V = PeerView;

    open spec fn view(&self) -> PeerView {
        PeerView {
            node_id: self.node_id@,
            node_name: self.node_name@,
            public_key: match self.public_key {
                Some(k) => Some(k@),
                None => None,
            },
            last_seen: self.last_seen,
        }
    }
}

impl PeerState {
    pub fn copy(&self) -> (r: Self)
        ensures
            r@ == self@,
    {
        let public_key = match &self.public_key {
            Some(k) => Some(k.clone()),
            None => None,
        };
        PeerState {
            node_id: self.node_id.clone(),
            node_name: self.node_name.clone(),
            public_key,
            last_seen: self.last_seen,
        }
    }
}

#[verifier::external_type_specification]
#[verifier::external_body]
#[verifier::reject_recursive_types(K)]
#[verifier::reject_recursive_types(V)]
#[verifier::reject_recursive_types(S)]
pub struct ExDashMap<K, V, S>(dashmap::DashMap<K, V, S>);

/// A concurrent map from remote address text to peer.
pub type PeerTable = dashmap::DashMap<String, PeerState, RandomState>;

/// The entries of a peer table: remote address text to peer.
pub uninterp spec fn peer_entries(m: PeerTable) -> Map<Seq<char>, PeerView>;

/// Relies on dashmap::DashMap::new: an empty map.
#[verifier::external_body]
fn table_new() -> (r: PeerTable)
    ensures
        peer_entries(r).dom().len() == 0 && peer_entries(r).dom().finite(),
{
    dashmap::DashMap::new()
}

/// Relies on dashmap::DashMap::contains_key.
#[verifier::external_body]
fn table_contains(m: &PeerTable, addr: &String) -> (r: bool)
    ensures
        r == peer_entries(*m).contains_key(addr@),
{
    m.contains_key(addr)
}

/// Relies on dashmap::DashMap::get: a copy of the entry under `addr`, if any.
#[verifier::external_body]
fn table_get(m: &PeerTable, addr: &String) -> (r: Option<PeerState>)
    ensures
        r is Some <==> peer_entries(*m).contains_key(addr@),
        r matches Some(p) ==> p@ == peer_entries(*m)[addr@],
{
    m.get(addr).map(|e| e.value().copy())
}

/// Relies on dashmap::DashMap::insert, which replaces any entry under the same key.
#[verifier::external_body]
fn table_insert(m: &mut PeerTable, addr: String, state: PeerState)
    ensures
        peer_entries(*final(m)) == peer_entries(*old(m)).insert(addr@, state@),
{
    m.insert(addr, state);
}

/// Relies on dashmap::DashMap::remove.
#[verifier::external_body]
fn table_remove(m: &mut PeerTable, addr: &String)
    ensures
        peer_entries(*final(m)) == peer_entries(*old(m)).remove(addr@),
{
    m.remove(addr);
}

/// Relies on dashmap::DashMap::iter: every key once, in an order that the
/// map's hasher decides.
#[verifier::external_body]
fn table_addresses(m: &PeerTable) -> (r: Vec<String>)
    ensures
        forall|i: int, j: int| 0 <= i < j < r@.len() ==> #[trigger] r@[i]@ != #[trigger] r@[j]@,
        forall|i: int| 0 <= i < r@.len() ==> peer_entries(*m).contains_key(#[trigger] r@[i]@),
        forall|k: Seq<char>|
            peer_entries(*m).contains_key(k) ==> exists|i: int|
                0 <= i < r@.len() && #[trigger] r@[i]@ == k,
{
    m.iter().map(|e| e.key().clone()).collect()
}

/// Relies on dashmap::DashMap::len: the number of entries.
#[verifier::external_body]
fn table_len(m: &PeerTable) -> (r: usize)
    ensures
        r == peer_entries(*m).len(),
{
    m.len()
}

/// Whether a peer last heard from at `last_seen` has been silent too long at `now`.
pub open spec fn is_stale(last_seen: u64, now: u64) -> bool {
    now >= last_seen + PEER_TIMEOUT_SECS
}

/// Whether an IP (text form) is an address of this host: unspecified or loopback.
pub open spec fn is_any_local(ip: Seq<char>) -> bool {
    ||| ip == seq!['0', '.', '0', '.', '0', '.', '0']
    ||| ip == seq![':', ':']
    ||| ip == seq![':', ':', '1']
    ||| (ip.len() >= 4 && ip.subrange(0, 4) == seq!['1', '2', '7', '.'])
}

/// Whether `ip` (text form) is an address of this host: unspecified or loopback.
pub fn any_local_ip(ip: &String) -> (r: bool)
    ensures
        r == is_any_local(ip@),
{
    proof {
        reveal_strlit("0.0.0.0");
        reveal_strlit("::");
        reveal_strlit("::1");
        reveal_strlit("127.");
        assert("0.0.0.0"@ =~= seq!['0', '.', '0', '.', '0', '.', '0']);
        assert("::"@ =~= seq![':', ':']);
        assert("::1"@ =~= seq![':', ':', '1']);
        assert("127."@ =~= seq!['1', '2', '7', '.']);
    }
    if ip.eq(&String::from_str("0.0.0.0")) || ip.eq(&String::from_str("::")) || ip.eq(
        &String::from_str("::1"),
    ) {
        return true;
    }
    let s = ip.as_str();
    if s.unicode_len() < 4 {
        return false;
    }
    let head = String::from_str(s.substring_char(0, 4));
    head.eq(&String::from_str("127."))
}

/// Whether the peer at `k` stays in the table at a heartbeat at `now`.
pub open spec fn kept_at(peers: Map<Seq<char>, PeerView>, k: Seq<char>, now: u64) -> bool {
    peers.contains_key(k) && !is_stale(peers[k].last_seen, now)
}

/// Whether the peer at `k` is evicted at a heartbeat at `now`.
pub open spec fn evicted_at(peers: Map<Seq<char>, PeerView>, k: Seq<char>, now: u64) -> bool {
    peers.contains_key(k) && is_stale(peers[k].last_seen, now)
}

/// Whether an envelope passes the signature gate: unsigned, or carrying the
/// key its sender's Node ID names and a signature that checks against it.
pub open spec fn passes_gate(msg: SentinelMessage, content_bytes: Seq<u8>) -> bool {
    msg.signature@.len() == 0 || (msg.sender@ == hex_text(msg.public_key@) && signature_checks(
        sig_domain(msg, content_bytes),
        msg.signature@,
        msg.public_key@,
    ))
}

/// The Node ID a peer carries until its handshake arrives.
pub open spec fn pending_id() -> Seq<char> {
    seq!['p', 'e', 'n', 'd', 'i', 'n', 'g']
}

/// The text of the chat heartbeat probe, which is never stored.
pub open spec fn ping_text() -> Seq<char> {
    seq!['P', 'I', 'N', 'G']
}

/// The key under which a chat envelope is stored: `"{timestamp}:{sender}"`.
pub open spec fn message_key_text(msg: SentinelMessage) -> Seq<char> {
    decimal_text(msg.timestamp as nat) + seq![':'] + msg.sender@
}

/// The peer table after `addr` is heard from at `now`: `last_seen` only moves forward.
pub open spec fn touched(
    peers: Map<Seq<char>, PeerView>,
    addr: Seq<char>,
    now: u64,
) -> Map<Seq<char>, PeerView> {
    if peers.contains_key(addr) && peers[addr].last_seen < now {
        peers.insert(addr, PeerView { last_seen: now, ..peers[addr] })
    } else {
        peers
    }
}

/// The peer table after a handshake envelope `msg` arrives on the connection
/// from `addr`: its entry, if any, takes the sender's Node ID, name and key.
pub open spec fn handshake_applied(
    peers: Map<Seq<char>, PeerView>,
    addr: Seq<char>,
    msg: SentinelMessage,
) -> Map<Seq<char>, PeerView> {
    match msg.content {
        MessageContent::Handshake { public_key, node_name } => if peers.contains_key(addr) {
            peers.insert(
                addr,
                PeerView {
                    node_id: msg.sender@,
                    node_name: node_name@,
                    public_key: Some(public_key@),
                    last_seen: peers[addr].last_seen,
                },
            )
        } else {
            peers
        },
        _ => peers,
    }
}

/// Whether `msg` is a chat message that is stored and shown (any text but the probe).
pub open spec fn is_stored_chat(msg: SentinelMessage) -> bool {
    msg.content matches MessageContent::Chat(t) && t@ != ping_text()
}

/// The gossip entry for the peer at `addr`.
pub open spec fn gossip_entry(addr: Seq<char>, p: PeerView, info: PeerInfo) -> bool {
    &&& info.address@ == addr
    &&& info.node_id@ == p.node_id
    &&& info.node_name@ == p.node_name
    &&& info.last_seen == 0
}

/// Whether `list` is the gossip list of `peers`: one entry for each peer, none twice.
pub open spec fn is_gossip_list(peers: Map<Seq<char>, PeerView>, list: Seq<PeerInfo>) -> bool {
    &&& forall|i: int|
        0 <= i < list.len() ==> peers.contains_key(#[trigger] list[i].address@) && gossip_entry(
            list[i].address@,
            peers[list[i].address@],
            list[i],
        )
    &&& forall|k: Seq<char>|
        peers.contains_key(k) ==> exists|i: int| 0 <= i < list.len() && #[trigger] list[i].address@ == k
    &&& forall|i: int, j: int|
        0 <= i < j < list.len() ==> #[trigger] list[i].address@ != #[trigger] list[j].address@
}

/// Whether `text` is the heartbeat probe.
pub fn is_ping(text: &String) -> (r: bool)
    ensures
        r == (text@ == ping_text()),
{
    proof {
        reveal_strlit("PING");
    }
    let ping = String::from_str("PING");
    assert(ping@ =~= ping_text());
    text.eq(&ping)
}

/// The storage key of a chat envelope: `"{timestamp}:{sender}"`.
pub fn message_key(msg: &SentinelMessage) -> (r: String)
    ensures
        r@ == message_key_text(*msg),
{
    proof {
        reveal_strlit(":");
    }
    let mut key = String::new();
    push_decimal(&mut key, msg.timestamp);
    key.append(":");
    key.append(msg.sender.as_str());
    assert(key@ =~= message_key_text(*msg));
    key
}

/// What became of one inbound envelope.
#[derive(Debug, Clone, PartialEq, Eq)]
pub enum Inbound {
    /// Its id was seen before; dropped.
    Duplicate,
    /// Its signature does not check; dropped.
    BadSignature,
    /// A handshake; the sending connection's peer entry now names the sender.
    Handshake,
    /// A chat message to store under `key` and to show.
    Chat { key: String },
    /// Accepted, with nothing more for the engine to do.
    Accepted,
}

/// An external socket address: IP in text form and port.
#[derive(Debug, Clone, PartialEq, Eq)]
pub struct PublicAddress {
    pub ip: String,
    pub port: u16,
}

/// The engine's state: identity, listen port, observed public address, peer
/// table and the ids of recently seen messages.
pub struct SentinelNode {
    pub identity: NodeIdentity,
    pub listen_port: u16,
    /// The external address observed through STUN, if known.
    pub public_addr: Option<PublicAddress>,
    pub peers: PeerTable,
    pub seen_messages: SeenMessages,
}

impl SentinelNode {
    pub open spec fn peers_view(&self) -> Map<Seq<char>, PeerView> {
        peer_entries(self.peers)
    }

    pub open spec fn seen_view(&self) -> Seq<[u8; 16]> {
        self.seen_messages@
    }

    pub open spec fn wf(&self) -> bool {
        self.seen_messages.wf()
    }

    pub fn new(identity: NodeIdentity, listen_port: u16) -> (r: Self)
        ensures
            r.wf(),
            r.identity == identity,
            r.listen_port == listen_port,
            r.public_addr is None,
            r.peers_view() == Map::<Seq<char>, PeerView>::empty(),
            r.seen_view() == Seq::<[u8; 16]>::empty(),
    {
        SentinelNode {
            identity,
            listen_port,
            public_addr: None,
            peers: table_new(),
            seen_messages: SeenMessages::new(),
        }
    }

    pub fn contains_peer(&self, addr: &String) -> (r: bool)
        ensures
            r == self.peers_view().contains_key(addr@),
    {
        table_contains(&self.peers, addr)
    }

    pub fn peer(&self, addr: &String) -> (r: Option<PeerState>)
        ensures
            r is Some <==> self.peers_view().contains_key(addr@),
            r matches Some(p) ==> p@ == self.peers_view()[addr@],
    {
        table_get(&self.peers, addr)
    }

    pub fn peer_count(&self) -> (r: usize)
        ensures
            r == self.peers_view().len(),
    {
        table_len(&self.peers)
    }

    /// The address texts of all peers, each once, in no particular order.
    pub fn peer_addresses(&self) -> (r: Vec<String>)
        ensures
            forall|i: int, j: int| 0 <= i < j < r@.len() ==> #[trigger] r@[i]@ != #[trigger] r@[j]@,
            forall|i: int| 0 <= i < r@.len() ==> self.peers_view().contains_key(#[trigger] r@[i]@),
            forall|k: Seq<char>|
                self.peers_view().contains_key(k) ==> exists|i: int|
                    0 <= i < r@.len() && #[trigger] r@[i]@ == k,
    {
        table_addresses(&self.peers)
    }

    /// How many message ids are remembered.
    pub fn seen_count(&self) -> (r: usize)
        requires
            self.wf(),
        ensures
            r == self.seen_view().len(),
            r <= SEEN_CAPACITY,
    {
        self.seen_messages.len()
    }

    /// Whether a dial to `addr`, which resolves to IP `target_ip` (text form)
    /// and port `target_port`, should go ahead: not to this node itself (a
    /// local address on its own listen port), and not to a peer already connected.
    pub fn should_dial(&self, addr: &String, target_ip: &String, target_port: u16) -> (r: bool)
        ensures
            r == (!(is_any_local(target_ip@) && target_port == self.listen_port)
                && !self.peers_view().contains_key(addr@)),
    {
        let own = target_port == self.listen_port && any_local_ip(target_ip);
        !own && !table_contains(&self.peers, addr)
    }

    /// Enters a freshly connected peer, whose Node ID is pending until its handshake.
    pub fn register_peer(&mut self, addr: String, node_name: String, now: u64)
        ensures
            final(self).wf() == old(self).wf(),
            final(self).identity == old(self).identity,
            final(self).listen_port == old(self).listen_port,
            final(self).public_addr == old(self).public_addr,
            final(self).seen_view() == old(self).seen_view(),
            final(self).peers_view() == old(self).peers_view().insert(
                addr@,
                PeerView {
                    node_id: pending_id(),
                    node_name: node_name@,
                    public_key: None,
                    last_seen: now,
                },
            ),
    {
        proof {
            reveal_strlit("pending");
        }
        let state = PeerState {
            node_id: String::from_str("pending"),
            node_name,
            public_key: None,
            last_seen: now,
        };
        assert(state.node_id@ =~= pending_id());
        table_insert(&mut self.peers, addr, state);
    }

    /// Processes one envelope that arrived on the connection from `addr`, at
    /// time `now`; `content_bytes` is its content as serialized on the wire.
    /// The peer's `last_seen` moves forward; an id seen before is dropped; the
    /// id is remembered; a signature that does not check drops the envelope;
    /// a handshake names the connection's peer; a chat message other than the
    /// probe is handed back for storage.
    pub fn handle_incoming_message(
        &mut self,
        msg: &SentinelMessage,
        addr: &String,
        content_bytes: &[u8],
        now: u64,
    ) -> (r: Inbound)
        requires
            old(self).wf(),
        ensures
            final(self).wf(),
            final(self).identity == old(self).identity,
            final(self).listen_port == old(self).listen_port,
            final(self).public_addr == old(self).public_addr,
            final(self).seen_view() == record(old(self).seen_view(), msg.id, SEEN_CAPACITY as nat),
            final(self).seen_view().contains(msg.id),
            (r == Inbound::Duplicate) <==> old(self).seen_view().contains(msg.id),
            !old(self).seen_view().contains(msg.id) ==> ((r == Inbound::BadSignature) <==> !passes_gate(
                *msg,
                content_bytes@,
            )),
            r == Inbound::Handshake <==> (!old(self).seen_view().contains(msg.id) && passes_gate(
                *msg,
                content_bytes@,
            ) && msg.content is Handshake),
            r is Chat <==> (!old(self).seen_view().contains(msg.id) && passes_gate(
                *msg,
                content_bytes@,
            ) && is_stored_chat(*msg)),
            r matches Inbound::Chat { key } ==> key@ == message_key_text(*msg),
            r == Inbound::Handshake ==> final(self).peers_view() == handshake_applied(
                touched(old(self).peers_view(), addr@, now),
                addr@,
                *msg,
            ),
            r != Inbound::Handshake ==> final(self).peers_view() == touched(
                old(self).peers_view(),
                addr@,
                now,
            ),
            r != Inbound::Duplicate && r != Inbound::BadSignature && msg.signature@.len() > 0
                ==> msg.sender@ == hex_text(msg.public_key@) && signature_checks(
                sig_domain(*msg, content_bytes@),
                msg.signature@,
                msg.public_key@,
            ),
    {
        match table_get(&self.peers, addr) {
            Some(p) => {
                if p.last_seen < now {
                    let fresh = PeerState { last_seen: now, ..p };
                    table_insert(&mut self.peers, addr.clone(), fresh);
                    assert(self.peers_view() =~= touched(old(self).peers_view(), addr@, now));
                }
            },
            None => {},
        }
        let ghost after_touch = self.peers_view();
        assert(after_touch == touched(old(self).peers_view(), addr@, now));
        proof {
            self.seen_messages.lemma_wf_bound();
            lemma_repeat_is_duplicate(old(self).seen_view(), msg.id, SEEN_CAPACITY as nat);
        }
        if !self.seen_messages.check_and_insert(msg.id) {
            return Inbound::Duplicate;
        }
        if msg.signature.len() > 0 {
            let claimed = node_id_for_key(msg.public_key.as_slice());
            if !claimed.eq(&msg.sender) {
                return Inbound::BadSignature;
            }
            let domain = msg.sig_hash(content_bytes);
            if !NodeIdentity::verify(
                domain.as_slice(),
                msg.signature.as_slice(),
                msg.public_key.as_slice(),
            ) {
                return Inbound::BadSignature;
            }
        }
        match &msg.content {
            MessageContent::Handshake { public_key, node_name } => {
                match table_get(&self.peers, addr) {
                    Some(p) => {
                        let named = PeerState {
                            node_id: msg.sender.clone(),
                            node_name: node_name.clone(),
                            public_key: Some(public_key.clone()),
                            last_seen: p.last_seen,
                        };
                        table_insert(&mut self.peers, addr.clone(), named);
                        assert(self.peers_view() =~= handshake_applied(after_touch, addr@, *msg));
                    },
                    None => {},
                }
                Inbound::Handshake
            },
            MessageContent::Chat(text) => {
                if is_ping(text) {
                    Inbound::Accepted
                } else {
                    Inbound::Chat { key: message_key(msg) }
                }
            },
            _ => Inbound::Accepted,
        }
    }

    /// Heartbeat eviction: removes every peer silent for `PEER_TIMEOUT_SECS`
    /// or more at `now`, and returns their addresses.
    pub fn evict_stale(&mut self, now: u64) -> (r: Vec<String>)
        ensures
            final(self).wf() == old(self).wf(),
            final(self).identity == old(self).identity,
            final(self).listen_port == old(self).listen_port,
            final(self).public_addr == old(self).public_addr,
            final(self).seen_view() == old(self).seen_view(),
            forall|k: Seq<char>| #[trigger] final(self).peers_view().contains_key(k) <==> kept_at(old(self).peers_view(), k, now),
            forall|k: Seq<char>| #[trigger] final(self).peers_view().contains_key(k) ==> final(self).peers_view()[k] == old(self).peers_view()[k],
            forall|i: int| 0 <= i < r@.len() ==> evicted_at(old(self).peers_view(), #[trigger] r@[i]@, now),
            forall|k: Seq<char>| evicted_at(old(self).peers_view(), k, now) ==> exists|i: int| 0 <= i < r@.len() && #[trigger] r@[i]@ == k,
    {
        let ghost start = self.peers_view();
        let addrs = table_addresses(&self.peers);
        let mut evicted: Vec<String> = Vec::new();
        let mut i: usize = 0;
        while i < addrs.len()
            invariant
                i <= addrs@.len(),
                self.identity == old(self).identity,
                self.listen_port == old(self).listen_port,
                self.public_addr == old(self).public_addr,
                self.seen_messages == old(self).seen_messages,
                start == old(self).peers_view(),
                forall|j: int| 0 <= j < addrs@.len() ==> start.contains_key(#[trigger] addrs@[j]@),
                forall|k: Seq<char>|
                    start.contains_key(k) ==> exists|j: int|
                        0 <= j < addrs@.len() && #[trigger] addrs@[j]@ == k,
                forall|k: Seq<char>|
                    start.contains_key(k) && !is_stale(start[k].last_seen, now)
                        ==> #[trigger] self.peers_view().contains_key(k),
                forall|k: Seq<char>|
                    #[trigger] self.peers_view().contains_key(k) ==> start.contains_key(k)
                        && self.peers_view()[k] == start[k],
                forall|j: int|
                    0 <= j < i && self.peers_view().contains_key(#[trigger] addrs@[j]@)
                        ==> !is_stale(self.peers_view()[addrs@[j]@].last_seen, now),
                forall|e: int|
                    0 <= e < evicted@.len() ==> start.contains_key(#[trigger] evicted@[e]@)
                        && is_stale(start[evicted@[e]@].last_seen, now),
                forall|k: Seq<char>|
                    start.contains_key(k) && !#[trigger] self.peers_view().contains_key(k)
                        ==> exists|e: int| 0 <= e < evicted@.len() && #[trigger] evicted@[e]@ == k,
            decreases addrs@.len() - i,
        {
            let addr = &addrs[i];
            match table_get(&self.peers, addr) {
                Some(p) => {
                    if now >= p.last_seen && now - p.last_seen >= PEER_TIMEOUT_SECS {
                        table_remove(&mut self.peers, addr);
                        let ghost before = evicted@;
                        evicted.push(addr.clone());
                        assert(evicted@[evicted@.len() - 1]@ == addr@);
                        assert forall|k: Seq<char>|
                            start.contains_key(k) && !#[trigger] self.peers_view().contains_key(
                                k,
                            ) implies exists|e: int|
                            0 <= e < evicted@.len() && #[trigger] evicted@[e]@ == k by {
                            if k == addr@ {
                                assert(evicted@[evicted@.len() - 1]@ == k);
                            } else {
                                let e = choose|e: int|
                                    0 <= e < before.len() && #[trigger] before[e]@ == k;
                                assert(evicted@[e] == before[e]);
                            }
                        }
                    }
                },
                None => {},
            }
            i += 1;
        }
        proof {
            assert forall|k: Seq<char>|
                start.contains_key(k) && is_stale(start[k].last_seen, now)
                    implies !#[trigger] self.peers_view().contains_key(k) by {
                let j = choose|j: int| 0 <= j < addrs@.len() && #[trigger] addrs@[j]@ == k;
                assert(addrs@[j]@ == k);
            }
        }
        evicted
    }

    /// The gossip list: one entry per peer, with its address text, Node ID and
    /// name, and `last_seen` zero.
    pub fn gossip_peers(&self) -> (r: Vec<PeerInfo>)
        ensures
            is_gossip_list(self.peers_view(), r@),
    {
        let addrs = table_addresses(&self.peers);
        let mut out: Vec<PeerInfo> = Vec::new();
        let mut i: usize = 0;
        while i < addrs.len()
            invariant
                i <= addrs@.len(),
                forall|j: int| 0 <= j < addrs@.len() ==> self.peers_view().contains_key(#[trigger] addrs@[j]@),
                out@.len() == i,
                forall|j: int| 0 <= j < i ==> (#[trigger] out@[j]).address@ == addrs@[j]@,
                forall|j: int|
                    0 <= j < i ==> gossip_entry(
                        addrs@[j]@,
                        self.peers_view()[addrs@[j]@],
                        #[trigger] out@[j],
                    ),
            decreases addrs@.len() - i,
        {
            let addr = &addrs[i];
            match table_get(&self.peers, addr) {
                Some(p) => {
                    out.push(
                        PeerInfo {
                            node_id: p.node_id,
                            address: addr.clone(),
                            node_name: p.node_name,
                            last_seen: 0,
                        },
                    );
                },
                None => {
                    assert(false);
                },
            }
            i += 1;
        }
        proof {
            assert forall|k: Seq<char>|
                self.peers_view().contains_key(k) implies exists|i: int|
                    0 <= i < out@.len() && #[trigger] out@[i].address@ == k by {
                let j = choose|j: int| 0 <= j < addrs@.len() && #[trigger] addrs@[j]@ == k;
                assert(out@[j].address@ == k);
            }
            assert forall|i: int, j: int| 0 <= i < j < out@.len() implies #[trigger] out@[i].address@
                != #[trigger] out@[j].address@ by {
                assert(out@[i].address@ == addrs@[i]@);
                assert(out@[j].address@ == addrs@[j]@);
            }
        }
        out
    }

    /// Signs `msg` in place: its public key becomes this node's, and its
    /// signature covers its signature domain; `content_bytes` is its content
    /// as serialized on the wire. An envelope sent in this node's name then
    /// passes the signature gate.
    pub fn sign_envelope(&self, msg: &mut SentinelMessage, content_bytes: &[u8])
        ensures
            final(msg).version == old(msg).version,
            final(msg).id == old(msg).id,
            final(msg).sender == old(msg).sender,
            final(msg).timestamp == old(msg).timestamp,
            final(msg).content == old(msg).content,
            final(msg).public_key@ == ed25519_public_key(self.identity@),
            final(msg).signature@ == ed25519_signature(
                self.identity@,
                sig_domain(*old(msg), content_bytes@),
            ),
            signature_checks(
                sig_domain(*final(msg), content_bytes@),
                final(msg).signature@,
                final(msg).public_key@,
            ),
            old(msg).sender@ == node_id_of(self.identity@) ==> passes_gate(
                *final(msg),
                content_bytes@,
            ),
    {
        let domain = msg.sig_hash(content_bytes);
        msg.public_key = self.identity.public_key_bytes();
        msg.signature = self.identity.sign(domain.as_slice());
        assert(sig_domain(*msg, content_bytes@) == sig_domain(*old(msg), content_bytes@));
    }

    /// The unsigned handshake this node sends on every new connection.
    pub fn handshake_message(&self, node_name: String) -> (r: SentinelMessage)
        ensures
            r.version == PROTOCOL_VERSION,
            r.sender@ == node_id_of(self.identity@),
            r.signature@.len() == 0,
            r.content matches MessageContent::Handshake { public_key, node_name: n }
                && public_key@ == ed25519_public_key(self.identity@) && n == node_name,
    {
        let content = MessageContent::Handshake {
            public_key: self.identity.public_key_bytes(),
            node_name,
        };
        SentinelMessage::new(self.identity.node_id(), content)
    }

    /// The unsigned chat probe broadcast at each heartbeat.
    pub fn heartbeat_ping(&self) -> (r: SentinelMessage)
        ensures
            r.version == PROTOCOL_VERSION,
            r.sender@ == node_id_of(self.identity@),
            r.signature@.len() == 0,
            r.content matches MessageContent::Chat(t) && t@ == ping_text(),
    {
        proof {
            reveal_strlit("PING");
        }
        let text = String::from_str("PING");
        assert(text@ =~= ping_text());
        SentinelMessage::new(self.identity.node_id(), MessageContent::Chat(text))
    }

    /// The unsigned gossip envelope carrying the peer table; `None` when the
    /// table is empty.
    pub fn gossip_message(&self) -> (r: Option<SentinelMessage>)
        ensures
            r is None <==> self.peers_view().len() == 0,
            r matches Some(m) ==> m.sender@ == node_id_of(self.identity@) && m.signature@.len()
                == 0 && (m.content matches MessageContent::PeerDiscovery(l) && is_gossip_list(
                self.peers_view(),
                l@,
            )),
    {
        let list = self.gossip_peers();
        if table_len(&self.peers) == 0 {
            None
        } else {
            Some(SentinelMessage::new(self.identity.node_id(), MessageContent::PeerDiscovery(list)))
        }
    }

    /// The unsigned farewell broadcast on shutdown.
    pub fn disconnect_message(&self, reason: String) -> (r: SentinelMessage)
        ensures
            r.version == PROTOCOL_VERSION,
            r.sender@ == node_id_of(self.identity@),
            r.signature@.len() == 0,
            r.content == MessageContent::Disconnect(reason),
    {
        SentinelMessage::new(self.identity.node_id(), MessageContent::Disconnect(reason))
    }

    /// The registration sent to the rendezvous service on every (re)connect.
    pub fn register_message(&self) -> (r: SentinelMessage)
        ensures
            r.sender@ == node_id_of(self.identity@),
            r.content matches MessageContent::Signal(SignalingMessage::Register { node_id, public_key, signature })
                && node_id@ == node_id_of(self.identity@) && public_key@ == ed25519_public_key(
                self.identity@,
            ) && signature@.len() == 0,
    {
        let node_id = self.identity.node_id();
        let signal = SignalingMessage::Register {
            node_id: self.identity.node_id(),
            public_key: self.identity.public_key_bytes(),
            signature: Vec::new(),
        };
        SentinelMessage::new_signal(node_id, signal)
    }

    /// A request to the rendezvous service for the address of `target_id`.
    pub fn lookup_message(&self, target_id: String) -> (r: SentinelMessage)
        ensures
            r.sender@ == node_id_of(self.identity@),
            r.content == MessageContent::Signal(SignalingMessage::LookupRequest { target_id }),
    {
        SentinelMessage::new_signal(self.identity.node_id(), SignalingMessage::LookupRequest { target_id })
    }

    /// Records the external address observed through STUN.
    pub fn set_public_addr(&mut self, addr: PublicAddress)
        ensures
            final(self).public_addr == Some(addr),
            final(self).identity == old(self).identity,
            final(self).listen_port == old(self).listen_port,
            final(self).peers == old(self).peers,
            final(self).seen_messages == old(self).seen_messages,
    {
        self.public_addr = Some(addr);
    }

    /// Whether `target_ip` is this node's own external IP.
    pub fn is_local_peer(&self, target_ip: &String) -> (r: bool)
        ensures
            r == (self.public_addr matches Some(a) && a.ip@ == target_ip@),
    {
        match &self.public_addr {
            Some(a) => a.ip.eq(target_ip),
            None => false,
        }
    }

    /// Drops the peer entry of a closed connection.
    pub fn remove_peer(&mut self, addr: &String)
        ensures
            final(self).wf() == old(self).wf(),
            final(self).identity == old(self).identity,
            final(self).listen_port == old(self).listen_port,
            final(self).public_addr == old(self).public_addr,
            final(self).seen_view() == old(self).seen_view(),
            final(self).peers_view() == old(self).peers_view().remove(addr@),
    {
        table_remove(&mut self.peers, addr);
    }
}

/// An envelope in this node's name that this node signed passes the
/// signature gate of any node.
pub proof fn lemma_signed_passes_gate(node: SentinelNode, before: SentinelMessage, after: SentinelMessage, content_bytes: Seq<u8>)
    requires
        before.sender@ == node_id_of(node.identity@),
        after.version == before.version,
        after.id == before.id,
        after.sender == before.sender,
        after.timestamp == before.timestamp,
        after.content == before.content,
        after.public_key@ == ed25519_public_key(node.identity@),
        after.signature@ == ed25519_signature(node.identity@, sig_domain(before, content_bytes)),
        signature_checks(sig_domain(before, content_bytes), after.signature@, after.public_key@),
    ensures
        passes_gate(after, content_bytes),
{
    assert(sig_domain(after, content_bytes) == sig_domain(before, content_bytes));
}

/// After a handshake from the connection at `addr` is handled, the peer
/// entry there carries the envelope's sender as its Node ID.
pub proof fn lemma_handshake_names_peer(peers: Map<Seq<char>, PeerView>, addr: Seq<char>, msg: SentinelMessage, now: u64)
    requires
        peers.contains_key(addr),
        msg.content is Handshake,
    ensures
        handshake_applied(touched(peers, addr, now), addr, msg).contains_key(addr),
        handshake_applied(touched(peers, addr, now), addr, msg)[addr].node_id == msg.sender@,
{
}

/// After a heartbeat at `now`, no peer silent for `PEER_TIMEOUT_SECS` or more remains.
pub proof fn lemma_heartbeat_leaves_no_stale_peer(before: Map<Seq<char>, PeerView>, after: Map<Seq<char>, PeerView>, now: u64)
    requires
        forall|k: Seq<char>| #[trigger] after.contains_key(k) <==> kept_at(before, k, now),
        forall|k: Seq<char>| #[trigger] after.contains_key(k) ==> after[k] == before[k],
    ensures
        forall|k: Seq<char>| #[trigger] after.contains_key(k) ==> !is_stale(after[k].last_seen, now),
{
}

} // verus!
