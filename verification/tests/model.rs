use wg_control::command::{Command, Error, Job, Outcome, Output, Step};
use wg_control::interface::{create_server, delete_server, get_server, get_servers};
use wg_control::interface::{refresh_server, start_server, stop_server, CreateServer, Status};
use wg_control::peer::{create_peer, delete_peer, get_peer, get_peers, CreatePeer};
use wg_control::peerconfig::{get_config, Download};
use wg_control::wghelper::{Peer, Wg};

fn exited(success: bool, stdout: &str, stderr: &str) -> Outcome {
    Outcome::Exited(Output { success, stdout: stdout.to_string(), stderr: stderr.to_string() })
}

fn keys(tag: &str) -> Vec<Outcome> {
    vec![
        exited(true, &format!("{}-private\n", tag), ""),
        exited(true, &format!("{}-public\n", tag), ""),
    ]
}

/// Runs `create_server` as a driver would, every command succeeding.
fn add_server(state: &mut Wg, name: &str, cidr: &str, port: u16) {
    let request = CreateServer { name: name.to_string(), port, cidr: cidr.to_string() };
    let mut outcomes = Vec::new();
    assert!(matches!(create_server(state, &request, &outcomes), Step::Run(_)));
    outcomes.push(exited(true, &format!("{}-private\n", name), ""));
    assert!(matches!(create_server(state, &request, &outcomes), Step::Run(_)));
    outcomes.push(exited(true, &format!("{}-public\n", name), ""));
    assert_eq!(create_server(state, &request, &outcomes), Step::Persist);
    outcomes.push(Outcome::Persisted);
    assert!(matches!(create_server(state, &request, &outcomes), Step::Done(Ok(_))));
}

/// Runs `create_peer` as a driver would, every command succeeding.
fn add_peer(state: &mut Wg, server_id: usize, name: &str) -> Peer {
    let request = CreatePeer { name: name.to_string() };
    let mut outcomes = Vec::new();
    assert!(matches!(create_peer(state, &request, server_id, &outcomes), Step::Run(_)));
    outcomes.push(exited(true, &format!("{}-private\n", name), ""));
    assert!(matches!(create_peer(state, &request, server_id, &outcomes), Step::Run(_)));
    outcomes.push(exited(true, &format!("{}-public\n", name), ""));
    assert_eq!(create_peer(state, &request, server_id, &outcomes), Step::Persist);
    outcomes.push(Outcome::Persisted);
    match create_peer(state, &request, server_id, &outcomes) {
        Step::Done(Ok(peer)) => peer,
        other => panic!("unexpected step {:?}", other),
    }
}

fn remove_peer(state: &mut Wg, server_id: usize, peer_id: usize) {
    assert_eq!(delete_peer(state, server_id, peer_id, &vec![]), Step::Persist);
    assert_eq!(delete_peer(state, server_id, peer_id, &vec![Outcome::Persisted]), Step::Done(Ok(())));
}

#[test]
fn new_model_has_no_servers() {
    assert_eq!(Wg::new(), Wg { servers: vec![] });
}

#[test]
fn create_adds_a_server_once_its_keys_are_there() {
    let mut state = Wg::new();
    assert!(matches!(state.create("wg0", "10.0.0.x", 51820, &vec![]), Step::Run(_)));
    assert_eq!(state.servers.len(), 0);
    assert!(matches!(
        state.create("wg0", "10.0.0.x", 51820, &vec![exited(true, "k\n", "")]),
        Step::Run(_)
    ));
    assert_eq!(state.servers.len(), 0);
    assert_eq!(state.create("wg0", "10.0.0.x", 51820, &keys("wg0")), Step::Done(Ok(())));
    assert_eq!(state.servers.len(), 1);
    let made = &state.servers[0];
    assert_eq!(made.name, "wg0");
    assert_eq!(made.path, "/tmp/wg0.conf");
    assert_eq!(made.address, "10.0.0.x");
    assert_eq!(made.subnet, 24);
    assert_eq!(made.port, 51820);
    assert_eq!(made.prikey, "wg0-private");
    assert_eq!(made.pubkey, "wg0-public");
    assert!(made.peers.is_empty());
    assert_eq!(made.next_host, 2);
}

#[test]
fn create_leaves_the_model_where_keys_cannot_be_made() {
    let mut state = Wg::new();
    let failed = vec![exited(false, "", "no entropy")];
    assert_eq!(
        state.create("wg0", "10.0.0.x", 51820, &failed),
        Step::Done(Err(Error::ExternalCommandFailure("no entropy".to_string())))
    );
    assert_eq!(state, Wg::new());
    let request = CreateServer { name: "wg0".to_string(), port: 1, cidr: "10.0.0.x".to_string() };
    assert_eq!(
        create_server(&mut state, &request, &vec![Outcome::Unavailable]),
        Step::Done(Err(Error::ExternalCommandUnavailable("wg".to_string())))
    );
    assert_eq!(state, Wg::new());
}

#[test]
fn create_sizes_the_network_by_the_placeholders() {
    let mut state = Wg::new();
    add_server(&mut state, "a", "10.0.0.x", 1);
    add_server(&mut state, "b", "10.0.x.x", 2);
    add_server(&mut state, "c", "10.x.x.x", 3);
    add_server(&mut state, "d", "x.x.x.x", 4);
    add_server(&mut state, "e", "10.0.0.1", 5);
    let sizes: Vec<usize> = state.servers.iter().map(|s| s.subnet).collect();
    assert_eq!(sizes, vec![24, 16, 8, 0, 32]);
}

#[test]
fn create_server_hands_back_the_server_after_persisting() {
    let mut state = Wg::new();
    let request = CreateServer { name: "wg0".to_string(), port: 51820, cidr: "10.0.0.x".to_string() };
    let mut outcomes = keys("wg0");
    assert_eq!(create_server(&mut state, &request, &outcomes), Step::Persist);
    outcomes.push(Outcome::Persisted);
    let step = create_server(&mut state, &request, &outcomes);
    assert_eq!(step, Step::Done(Ok(state.servers[0].clone())));
    assert_eq!(state.servers.len(), 1);
}

#[test]
fn create_server_reports_a_failed_write_and_keeps_the_server() {
    let mut state = Wg::new();
    let request = CreateServer { name: "wg0".to_string(), port: 51820, cidr: "10.0.0.x".to_string() };
    let mut outcomes = keys("wg0");
    assert_eq!(create_server(&mut state, &request, &outcomes), Step::Persist);
    outcomes.push(Outcome::NotPersisted);
    assert_eq!(
        create_server(&mut state, &request, &outcomes),
        Step::Done(Err(Error::PersistenceFailure))
    );
    assert_eq!(state.servers.len(), 1);
    assert_eq!(state.servers[0].name, "wg0");
}

#[test]
fn peers_get_rising_addresses_that_are_not_given_again() {
    let mut state = Wg::new();
    add_server(&mut state, "wg0", "10.0.0.x", 51820);
    assert_eq!(state.servers[0].subnet, 24);
    let first = add_peer(&mut state, 0, "first");
    assert_eq!(first.address, "10.0.0.2/24");
    assert_eq!(first.name, "first");
    assert_eq!(first.prikey, "first-private");
    assert_eq!(first.pubkey, "first-public");
    assert!(first.enabled);
    remove_peer(&mut state, 0, 0);
    assert!(state.servers[0].peers.is_empty());
    let second = add_peer(&mut state, 0, "second");
    assert_eq!(second.address, "10.0.0.3/24");
    let third = add_peer(&mut state, 0, "third");
    assert_eq!(third.address, "10.0.0.4/24");
    remove_peer(&mut state, 0, 0);
    let fourth = add_peer(&mut state, 0, "fourth");
    assert_eq!(fourth.address, "10.0.0.5/24");
    assert_eq!(state.servers[0].next_host, 6);
}

#[test]
fn peers_of_one_server_have_different_addresses() {
    let mut state = Wg::new();
    add_server(&mut state, "wg0", "10.0.x.x", 51820);
    let mut seen: Vec<String> = Vec::new();
    for round in 0..40usize {
        let made = add_peer(&mut state, 0, &format!("p{}", round));
        assert!(!seen.contains(&made.address));
        seen.push(made.address);
        if round % 3 == 0 {
            remove_peer(&mut state, 0, 0);
        }
    }
    assert_eq!(seen[0], "10.0.2.2/16");
    assert_eq!(seen[39], "10.0.41.41/16");
}

#[test]
fn create_peer_of_a_missing_server_is_not_found() {
    let mut state = Wg::new();
    add_server(&mut state, "wg0", "10.0.0.x", 51820);
    let before = state.servers[0].clone();
    let request = CreatePeer { name: "p".to_string() };
    assert_eq!(create_peer(&mut state, &request, 1, &vec![]), Step::Done(Err(Error::NotFound)));
    assert_eq!(create_peer(&mut state, &request, 1, &keys("p")), Step::Done(Err(Error::NotFound)));
    assert_eq!(state.create_peer("p", 9, &keys("p")), Step::Done(Err(Error::NotFound)));
    assert_eq!(state.servers, vec![before]);
}

#[test]
fn create_peer_leaves_the_model_where_keys_cannot_be_made() {
    let mut state = Wg::new();
    add_server(&mut state, "wg0", "10.0.0.x", 51820);
    let request = CreatePeer { name: "p".to_string() };
    let outcomes = vec![exited(true, "k\n", ""), exited(false, "", "bad key")];
    assert_eq!(
        create_peer(&mut state, &request, 0, &outcomes),
        Step::Done(Err(Error::ExternalCommandFailure("bad key".to_string())))
    );
    assert!(state.servers[0].peers.is_empty());
    assert_eq!(state.servers[0].next_host, 2);
}

#[test]
fn create_peer_reports_a_failed_write_and_keeps_the_peer() {
    let mut state = Wg::new();
    add_server(&mut state, "wg0", "10.0.0.x", 51820);
    let request = CreatePeer { name: "p".to_string() };
    let mut outcomes = keys("p");
    assert_eq!(create_peer(&mut state, &request, 0, &outcomes), Step::Persist);
    outcomes.push(Outcome::NotPersisted);
    assert_eq!(
        create_peer(&mut state, &request, 0, &outcomes),
        Step::Done(Err(Error::PersistenceFailure))
    );
    assert_eq!(state.servers[0].peers.len(), 1);
}

#[test]
fn delete_server_moves_the_servers_behind_it_up() {
    let mut state = Wg::new();
    add_server(&mut state, "wg0", "10.0.0.x", 51820);
    add_server(&mut state, "wg1", "10.1.0.x", 51821);
    let second = state.servers[1].clone();
    assert_eq!(delete_server(&mut state, 0, &vec![]), Step::Persist);
    assert_eq!(get_server(&state, 0), Ok(second));
    assert_eq!(get_server(&state, 1), Err(Error::NotFound));
    assert_eq!(state.servers.len(), 1);
    assert_eq!(delete_server(&mut state, 0, &vec![Outcome::Persisted]), Step::Done(Ok(())));
    assert_eq!(state.servers.len(), 1);
}

#[test]
fn delete_server_reports_a_failed_write_and_keeps_the_deletion() {
    let mut state = Wg::new();
    add_server(&mut state, "wg0", "10.0.0.x", 51820);
    assert_eq!(delete_server(&mut state, 0, &vec![]), Step::Persist);
    assert_eq!(
        delete_server(&mut state, 0, &vec![Outcome::NotPersisted]),
        Step::Done(Err(Error::PersistenceFailure))
    );
    assert!(state.servers.is_empty());
}

#[test]
fn delete_server_of_a_missing_server_is_not_found() {
    let mut state = Wg::new();
    assert_eq!(delete_server(&mut state, 0, &vec![]), Step::Done(Err(Error::NotFound)));
    add_server(&mut state, "wg0", "10.0.0.x", 51820);
    assert_eq!(delete_server(&mut state, 1, &vec![]), Step::Done(Err(Error::NotFound)));
    assert_eq!(state.servers.len(), 1);
}

#[test]
fn delete_peer_moves_the_peers_behind_it_up() {
    let mut state = Wg::new();
    add_server(&mut state, "wg0", "10.0.0.x", 51820);
    add_peer(&mut state, 0, "a");
    let b = add_peer(&mut state, 0, "b");
    assert_eq!(delete_peer(&mut state, 0, 0, &vec![]), Step::Persist);
    assert_eq!(get_peer(&state, 0, 0), Ok(b.clone()));
    assert_eq!(get_peers(&state, 0), Ok(vec![b]));
    assert_eq!(
        delete_peer(&mut state, 0, 0, &vec![Outcome::NotPersisted]),
        Step::Done(Err(Error::PersistenceFailure))
    );
    assert_eq!(state.servers[0].peers.len(), 1);
}

#[test]
fn delete_peer_of_a_missing_peer_is_not_found() {
    let mut state = Wg::new();
    add_server(&mut state, "wg0", "10.0.0.x", 51820);
    add_peer(&mut state, 0, "a");
    assert_eq!(delete_peer(&mut state, 0, 1, &vec![]), Step::Done(Err(Error::NotFound)));
    assert_eq!(delete_peer(&mut state, 1, 0, &vec![]), Step::Done(Err(Error::NotFound)));
    assert_eq!(state.servers[0].peers.len(), 1);
}

#[test]
fn get_server_and_peers_find_by_index() {
    let mut state = Wg::new();
    assert_eq!(get_server(&state, 0), Err(Error::NotFound));
    assert_eq!(get_peers(&state, 0), Err(Error::NotFound));
    assert_eq!(get_peer(&state, 0, 0), Err(Error::NotFound));
    add_server(&mut state, "wg0", "10.0.0.x", 51820);
    assert_eq!(get_server(&state, 0), Ok(state.servers[0].clone()));
    assert_eq!(get_peers(&state, 0), Ok(vec![]));
    assert_eq!(get_peer(&state, 0, 0), Err(Error::NotFound));
    let a = add_peer(&mut state, 0, "a");
    assert_eq!(get_peer(&state, 0, 0), Ok(a));
    assert_eq!(get_peer(&state, 0, 1), Err(Error::NotFound));
    assert_eq!(get_peer(&state, 1, 0), Err(Error::NotFound));
}

#[test]
fn get_servers_asks_for_the_interfaces_and_lists_the_servers() {
    let mut state = Wg::new();
    add_server(&mut state, "wg0", "10.0.0.x", 51820);
    add_server(&mut state, "wg1", "10.1.x.x", 51821);
    add_peer(&mut state, 1, "a");
    assert_eq!(
        get_servers(&state, &vec![]),
        Step::Run(Job {
            file: None,
            command: Command {
                program: "wg".to_string(),
                args: vec!["show".to_string(), "interfaces".to_string()],
                stdin: None,
            },
        })
    );
    let step = get_servers(&state, &vec![exited(true, "lo0 wg1\n", "")]);
    assert_eq!(
        step,
        Step::Done(Ok(vec![
            Status {
                name: "wg0".to_string(),
                running: false,
                address: "10.0.0.0/24".to_string(),
                peer_count: 0,
                port: 51820,
            },
            Status {
                name: "wg1".to_string(),
                running: true,
                address: "10.1.0.0/16".to_string(),
                peer_count: 1,
                port: 51821,
            },
        ]))
    );
    assert_eq!(
        get_servers(&state, &vec![exited(false, "", "denied")]),
        Step::Done(Err(Error::ExternalCommandFailure("denied".to_string())))
    );
    assert_eq!(get_servers(&Wg::new(), &vec![exited(true, "wg0", "")]), Step::Done(Ok(vec![])));
}

#[test]
fn server_operations_agree_with_the_model() {
    let mut state = Wg::new();
    add_server(&mut state, "wg0", "10.0.0.x", 51820);
    let failed = vec![exited(false, "", "nope")];
    assert_eq!(start_server(&state, 0, &vec![]), state.start(0, &vec![]));
    assert_eq!(stop_server(&state, 0, &vec![]), state.stop(0, &vec![]));
    assert_eq!(refresh_server(&state, 0, &vec![]), state.hot_reload(0, &vec![]));
    assert_eq!(
        start_server(&state, 0, &failed),
        Step::Done(Err(Error::ExternalCommandFailure("nope".to_string())))
    );
    assert_eq!(start_server(&state, 1, &vec![]), Step::Done(Err(Error::NotFound)));
    assert_eq!(stop_server(&state, 1, &vec![]), Step::Done(Err(Error::NotFound)));
    assert_eq!(refresh_server(&state, 1, &vec![]), Step::Done(Err(Error::NotFound)));
}

#[test]
fn get_config_hands_out_the_configuration_of_the_peer_as_a_file() {
    let mut state = Wg::new();
    add_server(&mut state, "wg0", "10.0.0.x", 51820);
    add_peer(&mut state, 0, "laptop");
    assert_eq!(
        get_config(&state, 0, 0),
        Ok(Download {
            disposition: "attachment; filename=\"laptop.conf\"".to_string(),
            content_type: "text/plain".to_string(),
            body: "[Interface]\nAddress = 10.0.0.2/24\nPrivateKey  = laptop-private\n\n\
                   [Peer]\nPublicKey = wg0-public\nAllowedIPs = 10.0.0.0/24\n\
                   Endpoint = 140.238.242.140:51820\nPersistentKeepalive = 25\n"
                .to_string(),
        })
    );
    assert_eq!(get_config(&state, 0, 1), Err(Error::NotFound));
    assert_eq!(get_config(&state, 1, 0), Err(Error::NotFound));
}

#[test]
fn a_created_server_renders_its_peers() {
    let mut state = Wg::new();
    add_server(&mut state, "wg0", "10.0.0.x", 51820);
    add_peer(&mut state, 0, "a");
    add_peer(&mut state, 0, "b");
    state.servers[0].peers[0].enabled = false;
    let rendered = state.wg_config(0);
    assert!(rendered.starts_with("[Interface]\nAddress = 10.0.0.1/24\nListenPort = 51820\n"));
    assert!(rendered.ends_with("[Peer]\nPublicKey = b-public\nAllowedIPs = 10.0.0.3/32\n\n"));
    assert_eq!(rendered.matches("[Peer]").count(), 1);
}
