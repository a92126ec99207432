//! What the model is rendered to: the configuration of an interface, which
//! the tunnel takes, and the configuration of a peer, which its remote end
//! takes. Both are functions of the model alone, field by field in a fixed
//! order.

use crate::text::{decimal, decimal_string, host_of, host_part, resolve};
use crate::wghelper::{address_of, Peer, PeerView, Server, ServerView};
use crate::wghelper::{NETWORK_HOST, SERVER_HOST};
use vstd::prelude::*;
use vstd::string::*;

verus! {

/// Run when an interface has come up.
pub const IFUP: &'static str =
    "iptables -A FORWARD -i %i -j ACCEPT; iptables -t nat -A POSTROUTING -o enp0s3 -j MASQUERADE";

/// Run when an interface has gone down.
pub const IFDOWN: &'static str =
    "iptables -D FORWARD -i %i -j ACCEPT; iptables -t nat -D POSTROUTING -o enp0s3 -j MASQUERADE";

/// The address at which peers reach this machine.
pub const ENDPOINT: &'static str = "140.238.242.140";

/// Seconds between the keepalive packets of a peer.
pub const KEEPALIVE: u64 = 25;

impl PeerView {
    /// The section that admits this peer in the configuration of its server:
    /// its public key, and its own address as the one address it may use.
    pub open spec fn stanza(self) -> Seq<char> {
        "[Peer]\n"@ + "PublicKey = "@ + self.pubkey + "\n"@ + "AllowedIPs = "@ + host_part(
            self.address,
        ) + "/32\n\n"@
    }
}

/// The enabled peers among `peers`, in their order.
pub open spec fn enabled_peers(peers: Seq<PeerView>) -> Seq<PeerView> {
    peers.filter(|peer: PeerView| peer.enabled)
}

/// The sections of the enabled peers among `peers`, in their order.
pub open spec fn peer_stanzas(peers: Seq<PeerView>) -> Seq<Seq<char>> {
    enabled_peers(peers).map_values(|peer: PeerView| peer.stanza())
}

impl ServerView {
    /// The section that describes the interface itself. The server has the
    /// host number 1 in its network.
    pub open spec fn interface_stanza(self) -> Seq<char> {
        "[Interface]\n"@ + "Address = "@ + address_of(
            self.address,
            SERVER_HOST as nat,
            self.subnet,
        ) + "\n"@ + "ListenPort = "@ + decimal(self.port as nat) + "\n"@ + "PrivateKey = "@
            + self.prikey + "\n"@ + "PostUp = "@ + IFUP@ + "\n"@ + "PostDown = "@ + IFDOWN@
            + "\n\n"@
    }

    /// The configuration of the interface: its own section, then one section
    /// for each enabled peer.
    pub open spec fn interface_config(self) -> Seq<char> {
        self.interface_stanza() + peer_stanzas(self.peers).flatten()
    }

    /// The configuration that the remote end of `peer` imports: the peer's own
    /// address and key, and this server as its one peer, allowed to send from
    /// the whole network.
    pub open spec fn peer_config(self, peer: PeerView) -> Seq<char> {
        "[Interface]\n"@ + "Address = "@ + peer.address + "\n"@ + "PrivateKey  = "@ + peer.prikey
            + "\n\n"@ + "[Peer]\n"@ + "PublicKey = "@ + self.pubkey + "\n"@ + "AllowedIPs = "@
            + address_of(self.address, NETWORK_HOST as nat, self.subnet) + "\n"@ + "Endpoint = "@
            + ENDPOINT@ + ":"@ + decimal(self.port as nat) + "\n"@ + "PersistentKeepalive = "@
            + decimal(KEEPALIVE as nat) + "\n"@
    }
}

/// The configuration of an interface holds one section for each enabled peer,
/// in the order of the peers, and none for a peer that is not enabled.
pub proof fn one_stanza_per_enabled_peer(peers: Seq<PeerView>)
    ensures
        peer_stanzas(peers).len() == enabled_peers(peers).len(),
        forall|k: int|
            0 <= k < enabled_peers(peers).len() ==> enabled_peers(peers)[k].enabled
                && #[trigger] peer_stanzas(peers)[k] == enabled_peers(peers)[k].stanza(),
{
    assert forall|k: int| 0 <= k < enabled_peers(peers).len() implies enabled_peers(
        peers,
    )[k].enabled && #[trigger] peer_stanzas(peers)[k] == enabled_peers(peers)[k].stanza() by {
        peers.lemma_filter_pred(|peer: PeerView| peer.enabled, k);
    }
}

/// One more peer adds its section to those of the others if it is enabled,
/// and nothing if it is not.
pub proof fn stanzas_of_one_more_peer(peers: Seq<PeerView>, peer: PeerView)
    ensures
        peer_stanzas(peers.push(peer)) == if peer.enabled {
            peer_stanzas(peers).push(peer.stanza())
        } else {
            peer_stanzas(peers)
        },
{
    peers.lemma_filter_push(peer, |peer: PeerView| peer.enabled);
    if peer.enabled {
        enabled_peers(peers).lemma_push_map_commute(|peer: PeerView| peer.stanza(), peer);
    }
}

/// Rendering reads the model and nothing else: servers that are alike, and
/// peers that are alike, are rendered alike, character for character.
pub proof fn rendering_is_deterministic(a: Server, b: Server, peer_a: Peer, peer_b: Peer)
    requires
        a@ == b@,
        peer_a@ == peer_b@,
    ensures
        a@.interface_config() == b@.interface_config(),
        a@.peer_config(peer_a@) == b@.peer_config(peer_b@),
{
}

impl Server {
    /// The address of the host numbered `host` in the network of this server,
    /// with the size of the network.
    pub fn address_of(&self, host: u64) -> (text: String)
        ensures
            text@ == address_of(self@.address, host as nat, self@.subnet),
    {
        let mut text = resolve(self.address.as_str(), host);
        text.append("/");
        text.append(decimal_string(self.subnet as u64).as_str());
        text
    }

    /// Renders the configuration of the interface.
    pub fn interface_config(&self) -> (text: String)
        ensures
            text@ == self@.interface_config(),
    {
        let mut text = String::from_str("[Interface]\n");
        text.append("Address = ");
        text.append(self.address_of(SERVER_HOST).as_str());
        text.append("\n");
        text.append("ListenPort = ");
        text.append(decimal_string(self.port as u64).as_str());
        text.append("\n");
        text.append("PrivateKey = ");
        text.append(self.prikey.as_str());
        text.append("\n");
        text.append("PostUp = ");
        text.append(IFUP);
        text.append("\n");
        text.append("PostDown = ");
        text.append(IFDOWN);
        text.append("\n\n");
        let ghost peers = self@.peers;
        proof {
            reveal(Seq::filter);
        }
        let mut i: usize = 0;
        while i < self.peers.len()
            invariant
                i <= self.peers.len(),
                peers == self@.peers,
                text@ == self@.interface_stanza() + peer_stanzas(peers.take(i as int)).flatten(),
            decreases self.peers.len() - i,
        {
            let peer = &self.peers[i];
            proof {
                peers.lemma_take_succ_push(i as int);
                stanzas_of_one_more_peer(peers.take(i as int), peer@);
                peer_stanzas(peers.take(i as int)).lemma_flatten_push(peer@.stanza());
            }
            if peer.enabled {
                let mut section = String::from_str("[Peer]\n");
                section.append("PublicKey = ");
                section.append(peer.pubkey.as_str());
                section.append("\n");
                section.append("AllowedIPs = ");
                section.append(host_of(peer.address.as_str()).as_str());
                section.append("/32\n\n");
                text.append(section.as_str());
            }
            i = i + 1;
        }
        proof {
            peers.lemma_take_len();
        }
        text
    }

    /// Renders the configuration that the remote end of `peer` imports.
    pub fn peer_config(&self, peer: &Peer) -> (text: String)
        ensures
            text@ == self@.peer_config(peer@),
    {
        let mut text = String::from_str("[Interface]\n");
        text.append("Address = ");
        text.append(peer.address.as_str());
        text.append("\n");
        text.append("PrivateKey  = ");
        text.append(peer.prikey.as_str());
        text.append("\n\n");
        text.append("[Peer]\n");
        text.append("PublicKey = ");
        text.append(self.pubkey.as_str());
        text.append("\n");
        text.append("AllowedIPs = ");
        text.append(self.address_of(NETWORK_HOST).as_str());
        text.append("\n");
        text.append("Endpoint = ");
        text.append(ENDPOINT);
        text.append(":");
        text.append(decimal_string(self.port as u64).as_str());
        text.append("\n");
        text.append("PersistentKeepalive = ");
        text.append(decimal_string(KEEPALIVE).as_str());
        text.append("\n");
        text
    }
}

} // verus!
