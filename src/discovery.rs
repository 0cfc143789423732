//! Local-network discovery: the service this node announces over mDNS, and
//! which resolved services it dials.

use vstd::prelude::*;
use crate::engine::SentinelNode;

verus! {

/// The mDNS service type under which nodes announce themselves.
pub const SERVICE_TYPE: &'static str = "_sentinel._tcp.local.";

/// Number of Node ID characters in an instance name.
pub const INSTANCE_ID_CHARS: usize = 8;

/// `"node-"` followed by the first eight characters of the Node ID (all of it if shorter).
pub open spec fn instance_name_text(node_id: Seq<char>) -> Seq<char> {
    seq!['n', 'o', 'd', 'e', '-'] + node_id.subrange(
        0,
        if node_id.len() < INSTANCE_ID_CHARS { node_id.len() as int } else { INSTANCE_ID_CHARS as int },
    )
}

/// The unspecified IPv4 address in text form.
pub open spec fn unspecified_ip() -> Seq<char> {
    seq!['0', '.', '0', '.', '0', '.', '0']
}

/// The mDNS instance name of the node with `node_id`.
pub fn instance_name(node_id: &String) -> (r: String)
    ensures
        r@ == instance_name_text(node_id@),
{
    proof {
        reveal_strlit("node-");
    }
    let s = node_id.as_str();
    let n = s.unicode_len();
    let end = if n < INSTANCE_ID_CHARS { n } else { INSTANCE_ID_CHARS };
    let mut name = String::from_str("node-");
    name.append(s.substring_char(0, end));
    assert(name@ =~= instance_name_text(node_id@));
    name
}

/// Whether a resolved service at `addr` (text form), with IP `ip` (text
/// form), is worth dialing: not already a peer, and not the unspecified address.
pub fn should_dial_discovered(node: &SentinelNode, addr: &String, ip: &String) -> (r: bool)
    ensures
        r == (!node.peers_view().contains_key(addr@) && ip@ != unspecified_ip()),
{
    proof {
        reveal_strlit("0.0.0.0");
    }
    let unspecified = String::from_str("0.0.0.0");
    assert(unspecified@ =~= unspecified_ip());
    !node.contains_peer(addr) && !ip.eq(&unspecified)
}

} // verus!
