//! The model: servers, each with its peers, and the operations that change
//! it. A server or a peer is found by its place in the list that holds it, so
//! an index is good until the next server or peer is added or taken away.

use crate::command::{Error, Outcome, OutcomeView, Step, StepView};
use crate::lifecycle::{forget, keys_step, not_found};
use crate::text::{decimal, placeholders, resolved, resolved_is_injective, subnet_bits};
use crate::text::{subnet_size, MAX_PLACEHOLDERS};
use vstd::prelude::*;
use vstd::string::*;

verus! {

/// The host number that stands for a whole network.
pub const NETWORK_HOST: u64 = 0;

/// The host number of a server in its own network.
pub const SERVER_HOST: u64 = 1;

/// The host number of the first peer of a server.
pub const FIRST_PEER_HOST: u64 = 2;

/// `pattern` resolved for `host`, with the size of the network behind it.
pub open spec fn address_of(pattern: Seq<char>, host: nat, subnet: nat) -> Seq<char> {
    resolved(pattern, host) + "/"@ + decimal(subnet)
}

/// Where the configuration of the server called `name` is written.
pub open spec fn config_path(name: Seq<char>) -> Seq<char> {
    "/tmp/"@ + name + ".conf"@
}

/// In the network of a pattern that holds a placeholder, different host
/// numbers have different addresses.
pub proof fn address_of_is_injective(pattern: Seq<char>, a: nat, b: nat, subnet: nat)
    requires
        placeholders(pattern) >= 1,
        address_of(pattern, a, subnet) == address_of(pattern, b, subnet),
    ensures
        a == b,
{
    let tail = "/"@ + decimal(subnet);
    let head_a = resolved(pattern, a);
    let head_b = resolved(pattern, b);
    assert(address_of(pattern, a, subnet) =~= head_a + tail);
    assert(address_of(pattern, b, subnet) =~= head_b + tail);
    assert(head_a =~= (head_a + tail).take(head_a.len() as int));
    assert(head_b =~= (head_b + tail).take(head_b.len() as int));
    resolved_is_injective(pattern, a, b);
}

/// A remote endpoint of a server.
#[derive(Debug, PartialEq, Eq)]
pub struct Peer {
    pub name: String,
    pub address: String,
    pub prikey: String,
    pub pubkey: String,
    pub enabled: bool,
}

/// A `Peer`, its texts as sequences of characters.
pub struct PeerView {
    pub name: Seq<char>,
    pub address: Seq<char>,
    pub prikey: Seq<char>,
    pub pubkey: Seq<char>,
    pub enabled: bool,
}

impl View for Peer {
    type V = PeerView;

    open spec fn view(&self) -> PeerView {
        PeerView {
            name: self.name@,
            address: self.address@,
            prikey: self.prikey@,
            pubkey: self.pubkey@,
            enabled: self.enabled,
        }
    }
}

impl DeepView for Peer {
    type V = PeerView;

    open spec fn deep_view(&self) -> PeerView {
        self@
    }
}

impl Clone for Peer {
    fn clone(&self) -> (res: Self)
        ensures
            res@ == self@,
    {
        Peer {
            name: self.name.clone(),
            address: self.address.clone(),
            prikey: self.prikey.clone(),
            pubkey: self.pubkey.clone(),
            enabled: self.enabled,
        }
    }
}

/// A tunnel interface and the peers that may use it.
#[derive(Debug, PartialEq, Eq)]
pub struct Server {
    pub path: String,
    pub name: String,
    pub address: String,
    pub subnet: usize,
    pub port: u16,
    pub prikey: String,
    pub pubkey: String,
    pub peers: Vec<Peer>,
    /// The host number that the next peer gets; it never goes down.
    pub next_host: u64,
}

/// A `Server`, its texts as sequences of characters and its peers as a sequence.
pub struct ServerView {
    pub path: Seq<char>,
    pub name: Seq<char>,
    pub address: Seq<char>,
    pub subnet: nat,
    pub port: u16,
    pub prikey: Seq<char>,
    pub pubkey: Seq<char>,
    pub peers: Seq<PeerView>,
    pub next_host: nat,
}

impl View for Server {
    type V = ServerView;

    open spec fn view(&self) -> ServerView {
        ServerView {
            path: self.path@,
            name: self.name@,
            address: self.address@,
            subnet: self.subnet as nat,
            port: self.port,
            prikey: self.prikey@,
            pubkey: self.pubkey@,
            peers: self.peers.deep_view(),
            next_host: self.next_host as nat,
        }
    }
}

impl DeepView for Server {
    type V = ServerView;

    open spec fn deep_view(&self) -> ServerView {
        self@
    }
}

impl Clone for Server {
    fn clone(&self) -> (res: Self)
        ensures
            res@ == self@,
    {
        let peers = self.peers.clone();
        Server {
            path: self.path.clone(),
            name: self.name.clone(),
            address: self.address.clone(),
            subnet: self.subnet,
            port: self.port,
            prikey: self.prikey.clone(),
            pubkey: self.pubkey.clone(),
            peers,
            next_host: self.next_host,
        }
    }
}

/// The server that `create` adds: no peers yet, the first host number for
/// peers free, and a network of 8 bits less than 32 for each placeholder of
/// `pattern`.
pub open spec fn new_server(
    name: Seq<char>,
    pattern: Seq<char>,
    port: u16,
    prikey: Seq<char>,
    pubkey: Seq<char>,
) -> ServerView {
    ServerView {
        path: config_path(name),
        name,
        address: pattern,
        subnet: subnet_bits(pattern) as nat,
        port,
        prikey,
        pubkey,
        peers: Seq::empty(),
        next_host: FIRST_PEER_HOST as nat,
    }
}

impl ServerView {
    /// Whether `hosts` are the host numbers that the peers were given: each
    /// peer has the address of its number, the numbers rise with the order of
    /// the peers, and none has reached `next_host`.
    pub open spec fn allocated(self, hosts: Seq<nat>) -> bool {
        &&& hosts.len() == self.peers.len()
        &&& forall|i: int|
            0 <= i < hosts.len() ==> FIRST_PEER_HOST <= #[trigger] hosts[i] < self.next_host
        &&& forall|i: int|
            0 <= i < hosts.len() ==> (#[trigger] self.peers[i]).address == address_of(
                self.address,
                hosts[i],
                self.subnet,
            )
        &&& forall|i: int, j: int| 0 <= i < j < hosts.len() ==> hosts[i] < hosts[j]
    }

    /// What holds of every server that the operations of the model made: the
    /// size of its network and the path of its configuration follow from its
    /// pattern and its name, and its peers have the addresses of rising host
    /// numbers.
    pub open spec fn wf(self) -> bool {
        &&& placeholders(self.address) <= MAX_PLACEHOLDERS
        &&& self.subnet == subnet_bits(self.address)
        &&& self.path == config_path(self.name)
        &&& FIRST_PEER_HOST <= self.next_host
        &&& exists|hosts: Seq<nat>| self.allocated(hosts)
    }

    /// The peer that `create_peer` adds: enabled, at the next free host number.
    pub open spec fn new_peer(
        self,
        name: Seq<char>,
        prikey: Seq<char>,
        pubkey: Seq<char>,
    ) -> PeerView {
        PeerView {
            name,
            address: address_of(self.address, self.next_host, self.subnet),
            prikey,
            pubkey,
            enabled: true,
        }
    }

    /// This server with one more peer; the host number of that peer is taken.
    pub open spec fn with_peer(self, peer: PeerView) -> ServerView {
        ServerView { peers: self.peers.push(peer), next_host: self.next_host + 1, ..self }
    }

    /// This server without the peer at `peer_id`; no host number comes back.
    pub open spec fn without_peer(self, peer_id: int) -> ServerView {
        ServerView { peers: self.peers.remove(peer_id), ..self }
    }

    /// No two peers of a server have the same address.
    pub proof fn peer_addresses_are_distinct(self, i: int, j: int)
        requires
            self.wf(),
            placeholders(self.address) >= 1,
            0 <= i < j < self.peers.len(),
        ensures
            self.peers[i].address != self.peers[j].address,
    {
        let hosts = choose|hosts: Seq<nat>| self.allocated(hosts);
        if self.peers[i].address == self.peers[j].address {
            address_of_is_injective(self.address, hosts[i], hosts[j], self.subnet);
        }
    }

    /// An address is given once. The next peer gets the address of
    /// `next_host`, which is that of no host number below it; the peers that
    /// a server has or had were given numbers below it, and taking a peer away
    /// leaves `next_host` as it is.
    pub proof fn next_address_is_new(self, host: nat, peer_id: int)
        requires
            placeholders(self.address) >= 1,
            host < self.next_host,
        ensures
            address_of(self.address, host, self.subnet) != address_of(
                self.address,
                self.next_host,
                self.subnet,
            ),
            self.without_peer(peer_id).next_host == self.next_host,
    {
        if address_of(self.address, host, self.subnet) == address_of(
            self.address,
            self.next_host,
            self.subnet,
        ) {
            address_of_is_injective(self.address, host, self.next_host, self.subnet);
        }
    }

    /// The peers that a server has do not have the address that its next
    /// peer gets.
    pub proof fn next_address_is_free(self, i: int)
        requires
            self.wf(),
            placeholders(self.address) >= 1,
            0 <= i < self.peers.len(),
        ensures
            self.peers[i].address != address_of(self.address, self.next_host, self.subnet),
    {
        let hosts = choose|hosts: Seq<nat>| self.allocated(hosts);
        self.next_address_is_new(hosts[i], i);
    }

    /// A server stays as it should be when it gets a peer.
    pub proof fn with_peer_keeps_wf(self, name: Seq<char>, prikey: Seq<char>, pubkey: Seq<char>)
        requires
            self.wf(),
        ensures
            self.with_peer(self.new_peer(name, prikey, pubkey)).wf(),
    {
        let hosts = choose|hosts: Seq<nat>| self.allocated(hosts);
        let after = self.with_peer(self.new_peer(name, prikey, pubkey));
        assert(after.allocated(hosts.push(self.next_host)));
    }

    /// A server stays as it should be when it loses a peer.
    pub proof fn without_peer_keeps_wf(self, peer_id: int)
        requires
            self.wf(),
            0 <= peer_id < self.peers.len(),
        ensures
            self.without_peer(peer_id).wf(),
    {
        let hosts = choose|hosts: Seq<nat>| self.allocated(hosts);
        let after = self.without_peer(peer_id);
        assert(after.allocated(hosts.remove(peer_id)));
    }
}

/// Whether no two of `servers` have the same name.
pub open spec fn distinct_names(servers: Seq<ServerView>) -> bool {
    forall|i: int, j: int|
        0 <= i < j < servers.len() ==> (#[trigger] servers[i]).name != (#[trigger] servers[j]).name
}

/// The names of the servers stay distinct when a server with a name that none
/// of them has is added, when a server is taken away, and when a server gets
/// or loses a peer.
pub proof fn names_stay_distinct(
    servers: Seq<ServerView>,
    added: ServerView,
    server_id: int,
    changed: ServerView,
)
    requires
        distinct_names(servers),
    ensures
        (forall|i: int| 0 <= i < servers.len() ==> (#[trigger] servers[i]).name != added.name)
            ==> distinct_names(servers.push(added)),
        0 <= server_id < servers.len() ==> distinct_names(servers.remove(server_id)),
        0 <= server_id < servers.len() && changed.name == servers[server_id].name
            ==> distinct_names(servers.update(server_id, changed)),
{
}

/// The whole model: the servers, each found by its place in the list.
#[derive(Debug, PartialEq, Eq)]
pub struct Wg {
    pub servers: Vec<Server>,
}

impl View for Wg {
    type V = Seq<ServerView>;

    open spec fn view(&self) -> Seq<ServerView> {
        self.servers.deep_view()
    }
}

/// What `create_peer` asks for next: nothing where there is no server at
/// `server_id`, and else the keys of the peer.
pub open spec fn peer_step(
    servers: Seq<ServerView>,
    server_id: int,
    outcomes: Seq<OutcomeView>,
) -> StepView<()> {
    if 0 <= server_id < servers.len() {
        forget(keys_step(outcomes))
    } else {
        not_found()
    }
}

/// The model after `create_peer`: the server at `server_id` has one more peer
/// once the keys of the peer are there, and until then nothing changes.
pub open spec fn peer_created(
    servers: Seq<ServerView>,
    server_id: int,
    name: Seq<char>,
    outcomes: Seq<OutcomeView>,
) -> Seq<ServerView> {
    if 0 <= server_id < servers.len() {
        match keys_step(outcomes) {
            StepView::Done(Ok(keys)) => servers.update(
                server_id,
                servers[server_id].with_peer(servers[server_id].new_peer(name, keys.0, keys.1)),
            ),
            _ => servers,
        }
    } else {
        servers
    }
}

impl Wg {
    /// Whether every server is as the operations of the model leave it.
    pub open spec fn wf(&self) -> bool {
        forall|i: int| 0 <= i < self@.len() ==> (#[trigger] self@[i]).wf()
    }

    /// The model without servers.
    pub fn new() -> (model: Wg)
        ensures
            model@ == Seq::<ServerView>::empty(),
            model.wf(),
    {
        let model = Wg { servers: Vec::new() };
        model
    }

    /// Adds a server, once a pair of keys has been made for it. While the keys
    /// are being made the model stays as it is, and it stays so where they
    /// cannot be made.
    pub fn create(&mut self, name: &str, cidr: &str, port: u16, outcomes: &Vec<Outcome>) -> (step:
        Step<()>)
        requires
            placeholders(cidr@) <= MAX_PLACEHOLDERS,
        ensures
            step@ == forget(keys_step(outcomes.deep_view())),
            final(self)@ == match keys_step(outcomes.deep_view()) {
                StepView::Done(Ok(keys)) => old(self)@.push(
                    new_server(name@, cidr@, port, keys.0, keys.1),
                ),
                _ => old(self)@,
            },
            old(self).wf() ==> final(self).wf(),
    {
        match Wg::get_keys(outcomes) {
            Step::Run(job) => Step::Run(job),
            Step::Persist => Step::Persist,
            Step::Done(Err(error)) => Step::Done(Err(error)),
            Step::Done(Ok((prikey, pubkey))) => {
                let mut path = String::from_str("/tmp/");
                path.append(name);
                path.append(".conf");
                let server = Server {
                    path,
                    name: String::from_str(name),
                    address: String::from_str(cidr),
                    subnet: subnet_size(cidr),
                    port,
                    prikey,
                    pubkey,
                    peers: Vec::new(),
                    next_host: FIRST_PEER_HOST,
                };
                proof {
                    assert(server@.peers =~= Seq::<PeerView>::empty());
                    assert(server@.allocated(Seq::<nat>::empty()));
                }
                self.servers.push(server);
                Step::Done(Ok(()))
            },
        }
    }

    /// Adds a peer to the server at `server_id`, once a pair of keys has been
    /// made for it. The peer gets the next free host number of the server.
    pub fn create_peer(&mut self, name: &str, server_id: usize, outcomes: &Vec<Outcome>) -> (step:
        Step<()>)
        requires
            server_id < old(self)@.len() ==> old(self)@[server_id as int].next_host < u64::MAX,
        ensures
            step@ == peer_step(old(self)@, server_id as int, outcomes.deep_view()),
            final(self)@ == peer_created(old(self)@, server_id as int, name@, outcomes.deep_view()),
            old(self).wf() ==> final(self).wf(),
    {
        if server_id >= self.servers.len() {
            return Step::Done(Err(Error::NotFound));
        }
        match Wg::get_keys(outcomes) {
            Step::Run(job) => Step::Run(job),
            Step::Persist => Step::Persist,
            Step::Done(Err(error)) => Step::Done(Err(error)),
            Step::Done(Ok((prikey, pubkey))) => {
                let ghost before = self@[server_id as int];
                let server = &mut self.servers[server_id];
                let peer = Peer {
                    name: String::from_str(name),
                    address: server.address_of(server.next_host),
                    prikey,
                    pubkey,
                    enabled: true,
                };
                server.peers.push(peer);
                server.next_host = server.next_host + 1;
                proof {
                    let added = before.new_peer(name@, prikey@, pubkey@);
                    assert(self@[server_id as int].peers =~= before.peers.push(added));
                    if old(self).wf() {
                        before.with_peer_keeps_wf(name@, prikey@, pubkey@);
                    }
                }
                Step::Done(Ok(()))
            },
        }
    }

    /// The configuration of the interface of the server at `server_id`; empty
    /// where there is no such server.
    pub fn wg_config(&self, server_id: usize) -> (text: String)
        ensures
            text@ == if server_id < self@.len() {
                self@[server_id as int].interface_config()
            } else {
                Seq::empty()
            },
    {
        if server_id < self.servers.len() {
            self.servers[server_id].interface_config()
        } else {
            String::new()
        }
    }

    /// The configuration that the remote end of the peer at `peer_id` of the
    /// server at `server_id` imports; empty where there is no such peer.
    pub fn peer_config(&self, server_id: usize, peer_id: usize) -> (text: String)
        ensures
            text@ == if server_id < self@.len() && peer_id < self@[server_id as int].peers.len() {
                self@[server_id as int].peer_config(self@[server_id as int].peers[peer_id as int])
            } else {
                Seq::empty()
            },
    {
        if server_id < self.servers.len() && peer_id < self.servers[server_id].peers.len() {
            let server = &self.servers[server_id];
            server.peer_config(&server.peers[peer_id])
        } else {
            String::new()
        }
    }
}

} // verus!
