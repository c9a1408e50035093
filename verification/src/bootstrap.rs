//! The peers that the discovery engine knows from the start.
//!
//! Each configured bootstrap node names a host. Resolving the name is left
//! to the caller and may give no address, one, or several; a name that
//! cannot be resolved is skipped. What this module decides is which peers
//! are registered, in which order, and when to warn that there are none.

use crate::address::SocketAddress;
use vstd::prelude::*;

verus! {

/// A configured bootstrap node after name resolution.
#[derive(Debug, PartialEq, Eq)]
pub struct BootstrapNode {
    /// The node's public key.
    pub public_key: [u8; 32],
    /// The addresses its name resolved to, or `None` where resolution
    /// failed.
    pub resolved: Option<Vec<SocketAddress>>,
}

/// A peer to register with the discovery engine.
#[derive(Clone, Copy, Debug, PartialEq, Eq)]
pub struct PackedNode {
    /// The peer's public key.
    pub public_key: [u8; 32],
    /// One address of the peer.
    pub addr: SocketAddress,
}

/// The peers to register, and whether to warn that there are none.
#[derive(Debug, PartialEq, Eq)]
pub struct InitialPeers {
    /// The peers, in the order of the configuration and, within a node, in
    /// the order of its addresses.
    pub peers: Vec<PackedNode>,
    /// Set when no peer is left. The node starts all the same.
    pub warn_empty: bool,
}

/// The peers of one node: one for each address its name resolved to, none
/// where resolution failed.
pub open spec fn peers_of(node: BootstrapNode) -> Seq<PackedNode> {
    match node.resolved {
        None => Seq::empty(),
        Some(addrs) => Seq::new(
            addrs@.len(),
            |i: int| PackedNode { public_key: node.public_key, addr: addrs@[i] },
        ),
    }
}

/// The peers of all nodes, node after node.
pub open spec fn all_peers(nodes: Seq<BootstrapNode>) -> Seq<PackedNode>
    decreases nodes.len(),
{
    if nodes.len() == 0 {
        Seq::empty()
    } else {
        all_peers(nodes.drop_last()) + peers_of(nodes.last())
    }
}

/// Collects the peers to register with the discovery engine from the
/// resolved bootstrap nodes.
pub fn initial_bootstrap(nodes: &Vec<BootstrapNode>) -> (initial: InitialPeers)
    ensures
        initial.peers@ == all_peers(nodes@),
        initial.warn_empty == (all_peers(nodes@).len() == 0),
{
    let mut peers: Vec<PackedNode> = Vec::new();
    let mut i: usize = 0;
    while i < nodes.len()
        invariant
            i <= nodes@.len(),
            peers@ == all_peers(nodes@.subrange(0, i as int)),
        decreases nodes@.len() - i,
    {
        let node = &nodes[i];
        let ghost before = peers@;
        match &node.resolved {
            None => {},
            Some(addrs) => {
                let mut k: usize = 0;
                while k < addrs.len()
                    invariant
                        k <= addrs@.len(),
                        node.resolved == Some(*addrs),
                        peers@ == before + peers_of(*node).subrange(0, k as int),
                    decreases addrs@.len() - k,
                {
                    peers.push(PackedNode { public_key: node.public_key, addr: addrs[k] });
                    assert(peers@ =~= before + peers_of(*node).subrange(0, k + 1));
                    k += 1;
                }
            },
        }
        assert(peers@ =~= before + peers_of(*node));
        assert(nodes@.subrange(0, i + 1).drop_last() =~= nodes@.subrange(0, i as int));
        assert(nodes@.subrange(0, i + 1).last() == *node);
        i += 1;
    }
    assert(nodes@.subrange(0, nodes@.len() as int) =~= nodes@);
    let warn_empty = peers.len() == 0;
    InitialPeers { peers, warn_empty }
}

} // verus!
