//! The operations on servers, as the transport layer calls them: each takes
//! the model, the index of a server where it speaks of one, and the outcomes
//! of the steps taken so far.

use crate::command::{persist_result, read_persisted, result_view};
use crate::command::{Error, ErrorView, Outcome, OutcomeView, Step, StepView};
use crate::lifecycle::{keys_step, not_found, status_step};
use crate::names::NameSet;
use crate::text::{placeholders, MAX_PLACEHOLDERS};
use crate::wghelper::{address_of, new_server};
use crate::wghelper::{Server, ServerView, Wg, NETWORK_HOST};
use vstd::prelude::*;

verus! {

/// What is needed to make a server.
#[derive(Debug, PartialEq, Eq)]
pub struct CreateServer {
    pub name: String,
    pub port: u16,
    pub cidr: String,
}

/// What a listing says of one server.
#[derive(Debug, PartialEq, Eq)]
pub struct Status {
    pub name: String,
    pub running: bool,
    pub address: String,
    pub peer_count: usize,
    pub port: u16,
}

/// A `Status`, its texts as sequences of characters.
pub struct StatusView {
    pub name: Seq<char>,
    pub running: bool,
    pub address: Seq<char>,
    pub peer_count: nat,
    pub port: u16,
}

impl View for Status {
    type V = StatusView;

    open spec fn view(&self) -> StatusView {
        StatusView {
            name: self.name@,
            running: self.running,
            address: self.address@,
            peer_count: self.peer_count as nat,
            port: self.port,
        }
    }
}

impl DeepView for Status {
    type V = StatusView;

    open spec fn deep_view(&self) -> StatusView {
        self@
    }
}

impl ServerView {
    /// What a listing says of this server while the interfaces named in `live`
    /// are up: the server runs if an interface has its name, and its address
    /// is that of its whole network.
    pub open spec fn status(self, live: Set<Seq<char>>) -> StatusView {
        StatusView {
            name: self.name,
            running: live.contains(self.name),
            address: address_of(self.address, NETWORK_HOST as nat, self.subnet),
            peer_count: self.peers.len(),
            port: self.port,
        }
    }
}

/// The listing of `servers`, in their order.
pub open spec fn statuses(servers: Seq<ServerView>, live: Set<Seq<char>>) -> Seq<StatusView> {
    Seq::new(servers.len(), |i: int| servers[i].status(live))
}

/// Listing the servers: the interfaces that are up are asked for first, and
/// there is no listing where they cannot be had.
pub open spec fn list_step(servers: Seq<ServerView>, outcomes: Seq<OutcomeView>) -> StepView<
    Seq<StatusView>,
> {
    match status_step(outcomes) {
        StepView::Run(job) => StepView::Run(job),
        StepView::Persist => StepView::Persist,
        StepView::Done(Err(error)) => StepView::Done(Err(error)),
        StepView::Done(Ok(live)) => StepView::Done(Ok(statuses(servers, live))),
    }
}

/// Making a server: its keys are made, the server is added to the model, and
/// the model is written out; only then is the server handed back.
pub open spec fn create_server_step(
    servers: Seq<ServerView>,
    outcomes: Seq<OutcomeView>,
) -> StepView<ServerView> {
    if outcomes.len() <= 2 {
        match keys_step(outcomes) {
            StepView::Run(job) => StepView::Run(job),
            StepView::Done(Err(error)) => StepView::Done(Err(error)),
            _ => StepView::Persist,
        }
    } else {
        match persist_result(outcomes[2]) {
            Err(error) => StepView::Done(Err(error)),
            Ok(_) => if servers.len() > 0 {
                StepView::Done(Ok(servers.last()))
            } else {
                not_found()
            },
        }
    }
}

/// The model after a step of `create_server`: the server is added when its
/// keys have just been made, and at no other step.
pub open spec fn server_created(
    servers: Seq<ServerView>,
    name: Seq<char>,
    pattern: Seq<char>,
    port: u16,
    outcomes: Seq<OutcomeView>,
) -> Seq<ServerView> {
    if outcomes.len() <= 2 {
        match keys_step(outcomes) {
            StepView::Done(Ok(keys)) => servers.push(
                new_server(name, pattern, port, keys.0, keys.1),
            ),
            _ => servers,
        }
    } else {
        servers
    }
}

/// Taking a server away: the servers behind it move up by one place, and the
/// model is written out.
pub open spec fn delete_server_step(
    servers: Seq<ServerView>,
    server_id: int,
    outcomes: Seq<OutcomeView>,
) -> StepView<()> {
    if outcomes.len() == 0 {
        if 0 <= server_id < servers.len() {
            StepView::Persist
        } else {
            not_found()
        }
    } else {
        StepView::Done(persist_result(outcomes[0]))
    }
}

/// The model after a step of `delete_server`.
pub open spec fn server_deleted(
    servers: Seq<ServerView>,
    server_id: int,
    outcomes: Seq<OutcomeView>,
) -> Seq<ServerView> {
    if outcomes.len() == 0 && 0 <= server_id < servers.len() {
        servers.remove(server_id)
    } else {
        servers
    }
}

/// Brings up the interface of the server at `server_id`.
pub fn start_server(state: &Wg, server_id: usize, outcomes: &Vec<Outcome>) -> (step: Step<()>)
    ensures
        step@ == if server_id < state@.len() {
            state@[server_id as int].start_step(outcomes.deep_view())
        } else {
            not_found()
        },
{
    state.start(server_id, outcomes)
}

/// Takes down the interface of the server at `server_id`.
pub fn stop_server(state: &Wg, server_id: usize, outcomes: &Vec<Outcome>) -> (step: Step<()>)
    ensures
        step@ == if server_id < state@.len() {
            state@[server_id as int].stop_step(outcomes.deep_view())
        } else {
            not_found()
        },
{
    state.stop(server_id, outcomes)
}

/// Brings the peers of the running interface of the server at `server_id` up
/// to date.
pub fn refresh_server(state: &Wg, server_id: usize, outcomes: &Vec<Outcome>) -> (step: Step<()>)
    ensures
        step@ == if server_id < state@.len() {
            state@[server_id as int].reload_step(outcomes.deep_view())
        } else {
            not_found()
        },
{
    state.hot_reload(server_id, outcomes)
}

/// Says of one server what a listing says of it.
fn status_of(server: &Server, live: &NameSet) -> (status: Status)
    ensures
        status@ == server@.status(live@),
{
    Status {
        name: server.name.clone(),
        running: live.contains(&server.name),
        address: server.address_of(NETWORK_HOST),
        peer_count: server.peers.len(),
        port: server.port,
    }
}

/// Lists the servers. See `list_step`.
pub fn get_servers(state: &Wg, outcomes: &Vec<Outcome>) -> (step: Step<Vec<Status>>)
    ensures
        step@ == list_step(state@, outcomes.deep_view()),
{
    match Wg::server_status(outcomes) {
        Step::Run(job) => Step::Run(job),
        Step::Persist => Step::Persist,
        Step::Done(Err(error)) => Step::Done(Err(error)),
        Step::Done(Ok(live)) => {
            let mut list: Vec<Status> = Vec::new();
            let mut i: usize = 0;
            while i < state.servers.len()
                invariant
                    i <= state.servers.len(),
                    list.len() == i,
                    forall|j: int|
                        0 <= j < i ==> (#[trigger] list.deep_view()[j]) == state@[j].status(live@),
                decreases state.servers.len() - i,
            {
                let status = status_of(&state.servers[i], &live);
                let ghost before = list.deep_view();
                list.push(status);
                assert(list.deep_view() =~= before.push(status@));
                i = i + 1;
            }
            assert(list.deep_view() =~= statuses(state@, live@));
            Step::Done(Ok(list))
        },
    }
}

/// Makes a server. See `create_server_step` and `server_created`.
pub fn create_server(state: &mut Wg, request: &CreateServer, outcomes: &Vec<Outcome>) -> (step:
    Step<Server>)
    requires
        placeholders(request.cidr@) <= MAX_PLACEHOLDERS,
    ensures
        step@ == create_server_step(old(state)@, outcomes.deep_view()),
        final(state)@ == server_created(
            old(state)@,
            request.name@,
            request.cidr@,
            request.port,
            outcomes.deep_view(),
        ),
        old(state).wf() ==> final(state).wf(),
{
    if outcomes.len() <= 2 {
        match state.create(
            request.name.as_str(),
            request.cidr.as_str(),
            request.port,
            outcomes,
        ) {
            Step::Run(job) => Step::Run(job),
            Step::Done(Err(error)) => Step::Done(Err(error)),
            _ => Step::Persist,
        }
    } else {
        match read_persisted(&outcomes[2]) {
            Err(error) => Step::Done(Err(error)),
            Ok(_) => {
                let count: usize = state.servers.len();
                if count > 0 {
                    Step::Done(Ok(state.servers[count - 1].clone()))
                } else {
                    Step::Done(Err(Error::NotFound))
                }
            },
        }
    }
}

/// The server at `server_id`.
pub fn get_server(state: &Wg, server_id: usize) -> (result: Result<Server, Error>)
    ensures
        result_view(result) == if server_id < state@.len() {
            Ok::<ServerView, ErrorView>(state@[server_id as int])
        } else {
            Err(ErrorView::NotFound)
        },
{
    if server_id < state.servers.len() {
        Ok(state.servers[server_id].clone())
    } else {
        Err(Error::NotFound)
    }
}

/// Takes away the server at `server_id`. See `delete_server_step` and
/// `server_deleted`.
pub fn delete_server(state: &mut Wg, server_id: usize, outcomes: &Vec<Outcome>) -> (step: Step<()>)
    ensures
        step@ == delete_server_step(old(state)@, server_id as int, outcomes.deep_view()),
        final(state)@ == server_deleted(old(state)@, server_id as int, outcomes.deep_view()),
        old(state).wf() ==> final(state).wf(),
{
    if outcomes.len() == 0 {
        if server_id < state.servers.len() {
            state.servers.remove(server_id);
            Step::Persist
        } else {
            Step::Done(Err(Error::NotFound))
        }
    } else {
        Step::Done(read_persisted(&outcomes[0]))
    }
}

} // verus!
