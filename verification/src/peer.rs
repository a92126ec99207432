//! The operations on the peers of a server, as the transport layer calls
//! them.

use crate::command::{persist_result, read_persisted, result_view};
use crate::command::{Error, ErrorView, Outcome, OutcomeView, Step, StepView};
use crate::lifecycle::{keys_step, not_found};
use crate::wghelper::peer_created;
use crate::wghelper::{Peer, PeerView, ServerView, Wg};
use vstd::prelude::*;

verus! {

/// What is needed to make a peer.
#[derive(Debug, PartialEq, Eq)]
pub struct CreatePeer {
    pub name: String,
}

/// Whether `servers` holds a server at `server_id` that holds a peer at
/// `peer_id`.
pub open spec fn has_peer(servers: Seq<ServerView>, server_id: int, peer_id: int) -> bool {
    0 <= server_id < servers.len() && 0 <= peer_id < servers[server_id].peers.len()
}

/// Making a peer: where the server is there, the keys of the peer are made,
/// the peer is added to the server, and the model is written out; only then
/// is the peer handed back.
pub open spec fn create_peer_step(
    servers: Seq<ServerView>,
    server_id: int,
    outcomes: Seq<OutcomeView>,
) -> StepView<PeerView> {
    if !(0 <= server_id < servers.len()) {
        not_found()
    } else if outcomes.len() <= 2 {
        match keys_step(outcomes) {
            StepView::Run(job) => StepView::Run(job),
            StepView::Done(Err(error)) => StepView::Done(Err(error)),
            _ => StepView::Persist,
        }
    } else {
        match persist_result(outcomes[2]) {
            Err(error) => StepView::Done(Err(error)),
            Ok(_) => if servers[server_id].peers.len() > 0 {
                StepView::Done(Ok(servers[server_id].peers.last()))
            } else {
                not_found()
            },
        }
    }
}

/// Taking a peer away: the peers behind it move up by one place, and the
/// model is written out.
pub open spec fn delete_peer_step(
    servers: Seq<ServerView>,
    server_id: int,
    peer_id: int,
    outcomes: Seq<OutcomeView>,
) -> StepView<()> {
    if outcomes.len() == 0 {
        if has_peer(servers, server_id, peer_id) {
            StepView::Persist
        } else {
            not_found()
        }
    } else {
        StepView::Done(persist_result(outcomes[0]))
    }
}

/// The model after a step of `delete_peer`.
pub open spec fn peer_deleted(
    servers: Seq<ServerView>,
    server_id: int,
    peer_id: int,
    outcomes: Seq<OutcomeView>,
) -> Seq<ServerView> {
    if outcomes.len() == 0 && has_peer(servers, server_id, peer_id) {
        servers.update(server_id, servers[server_id].without_peer(peer_id))
    } else {
        servers
    }
}

/// The peers of the server at `server_id`, in their order.
pub fn get_peers(state: &Wg, server_id: usize) -> (result: Result<Vec<Peer>, Error>)
    ensures
        result_view(result) == if server_id < state@.len() {
            Ok::<Seq<PeerView>, ErrorView>(state@[server_id as int].peers)
        } else {
            Err(ErrorView::NotFound)
        },
{
    if server_id < state.servers.len() {
        let peers = state.servers[server_id].peers.clone();
        Ok(peers)
    } else {
        Err(Error::NotFound)
    }
}

/// The peer at `peer_id` of the server at `server_id`.
pub fn get_peer(state: &Wg, server_id: usize, peer_id: usize) -> (result: Result<Peer, Error>)
    ensures
        result_view(result) == if has_peer(state@, server_id as int, peer_id as int) {
            Ok::<PeerView, ErrorView>(state@[server_id as int].peers[peer_id as int])
        } else {
            Err(ErrorView::NotFound)
        },
{
    if server_id < state.servers.len() && peer_id < state.servers[server_id].peers.len() {
        Ok(state.servers[server_id].peers[peer_id].clone())
    } else {
        Err(Error::NotFound)
    }
}

/// Makes a peer of the server at `server_id`. See `create_peer_step`; the
/// model changes as in `Wg::create_peer` while the keys are made, and not
/// after that.
pub fn create_peer(
    state: &mut Wg,
    request: &CreatePeer,
    server_id: usize,
    outcomes: &Vec<Outcome>,
) -> (step: Step<Peer>)
    requires
        server_id < old(state)@.len() ==> old(state)@[server_id as int].next_host < u64::MAX,
    ensures
        step@ == create_peer_step(old(state)@, server_id as int, outcomes.deep_view()),
        final(state)@ == if outcomes.len() <= 2 {
            peer_created(old(state)@, server_id as int, request.name@, outcomes.deep_view())
        } else {
            old(state)@
        },
        old(state).wf() ==> final(state).wf(),
{
    if server_id >= state.servers.len() {
        Step::Done(Err(Error::NotFound))
    } else if outcomes.len() <= 2 {
        match state.create_peer(request.name.as_str(), server_id, outcomes) {
            Step::Run(job) => Step::Run(job),
            Step::Done(Err(error)) => Step::Done(Err(error)),
            _ => Step::Persist,
        }
    } else {
        match read_persisted(&outcomes[2]) {
            Err(error) => Step::Done(Err(error)),
            Ok(_) => {
                let peers = &state.servers[server_id].peers;
                let count: usize = peers.len();
                if count > 0 {
                    Step::Done(Ok(peers[count - 1].clone()))
                } else {
                    Step::Done(Err(Error::NotFound))
                }
            },
        }
    }
}

/// Takes away the peer at `peer_id` of the server at `server_id`. See
/// `delete_peer_step` and `peer_deleted`.
pub fn delete_peer(state: &mut Wg, server_id: usize, peer_id: usize, outcomes: &Vec<Outcome>) -> (step:
    Step<()>)
    ensures
        step@ == delete_peer_step(
            old(state)@,
            server_id as int,
            peer_id as int,
            outcomes.deep_view(),
        ),
        final(state)@ == peer_deleted(
            old(state)@,
            server_id as int,
            peer_id as int,
            outcomes.deep_view(),
        ),
        old(state).wf() ==> final(state).wf(),
{
    if outcomes.len() == 0 {
        if server_id < state.servers.len() && peer_id < state.servers[server_id].peers.len() {
            let ghost before = state@[server_id as int];
            state.servers[server_id].peers.remove(peer_id);
            proof {
                assert(state@[server_id as int].peers =~= before.peers.remove(peer_id as int));
                assert(state@ =~= old(state)@.update(
                    server_id as int,
                    before.without_peer(peer_id as int),
                ));
                if old(state).wf() {
                    before.without_peer_keeps_wf(peer_id as int);
                }
            }
            Step::Persist
        } else {
            Step::Done(Err(Error::NotFound))
        }
    } else {
        Step::Done(read_persisted(&outcomes[0]))
    }
}

} // verus!
