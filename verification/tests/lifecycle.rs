use wg_control::command::{Command, Error, File, Job, Outcome, Output, Step};
use wg_control::command::{read_outcome, read_persisted};
use wg_control::names::NameSet;
use wg_control::wghelper::{Peer, Server, Wg};

fn exited(success: bool, stdout: &str, stderr: &str) -> Outcome {
    Outcome::Exited(Output { success, stdout: stdout.to_string(), stderr: stderr.to_string() })
}

fn command(program: &str, args: &[&str], stdin: Option<&str>) -> Command {
    Command {
        program: program.to_string(),
        args: args.iter().map(|a| a.to_string()).collect(),
        stdin: stdin.map(String::from),
    }
}

fn server() -> Server {
    Server {
        path: "/tmp/wg0.conf".to_string(),
        name: "wg0".to_string(),
        address: "10.0.0.x".to_string(),
        subnet: 24,
        port: 51820,
        prikey: "server-private".to_string(),
        pubkey: "server-public".to_string(),
        peers: vec![Peer {
            name: "a".to_string(),
            address: "10.0.0.2/24".to_string(),
            prikey: "a-private".to_string(),
            pubkey: "a-public".to_string(),
            enabled: true,
        }],
        next_host: 3,
    }
}

fn model() -> Wg {
    Wg { servers: vec![server()] }
}

fn quick(verb: &str) -> Step<()> {
    Step::Run(Job {
        file: Some(File { path: "/tmp/wg0.conf".to_string(), contents: server().interface_config() }),
        command: command("wg-quick", &[verb, "/tmp/wg0.conf"], None),
    })
}

#[test]
fn read_outcome_gives_the_output_of_a_command_that_succeeded() {
    assert_eq!(read_outcome("wg", &exited(true, "out", "err")), Ok("out".to_string()));
}

#[test]
fn read_outcome_reports_a_command_that_failed_with_its_standard_error() {
    assert_eq!(
        read_outcome("wg", &exited(false, "out", "err: no such device\n")),
        Err(Error::ExternalCommandFailure("err: no such device\n".to_string()))
    );
}

#[test]
fn read_outcome_reports_a_command_that_could_not_be_started() {
    for outcome in [Outcome::Unavailable, Outcome::Persisted, Outcome::NotPersisted] {
        assert_eq!(
            read_outcome("wg-quick", &outcome),
            Err(Error::ExternalCommandUnavailable("wg-quick".to_string()))
        );
    }
}

#[test]
fn read_persisted_takes_nothing_but_persisted_for_success() {
    assert_eq!(read_persisted(&Outcome::Persisted), Ok(()));
    assert_eq!(read_persisted(&Outcome::NotPersisted), Err(Error::PersistenceFailure));
    assert_eq!(read_persisted(&Outcome::Unavailable), Err(Error::PersistenceFailure));
    assert_eq!(read_persisted(&exited(true, "", "")), Err(Error::PersistenceFailure));
}

#[test]
fn detail_describes_each_error() {
    assert_eq!(Error::NotFound.detail(), "no server or peer has this index");
    assert_eq!(Error::ExternalCommandFailure("boom\n".to_string()).detail(), "boom\n");
    assert_eq!(
        Error::ExternalCommandUnavailable("wg".to_string()).detail(),
        "could not start wg"
    );
    assert_eq!(Error::PersistenceFailure.detail(), "the model could not be written to storage");
}

#[test]
fn start_writes_the_configuration_and_brings_the_interface_up() {
    assert_eq!(model().start(0, &vec![]), quick("up"));
    assert_eq!(server().start(&vec![]), quick("up"));
}

#[test]
fn start_succeeds_when_the_command_succeeds() {
    assert_eq!(model().start(0, &vec![exited(true, "", "")]), Step::Done(Ok(())));
}

#[test]
fn start_reports_the_failure_of_the_command_and_leaves_the_model() {
    let subject = model();
    let step = subject.start(0, &vec![exited(false, "", "wg-quick: `wg0' already exists\n")]);
    assert_eq!(
        step,
        Step::Done(Err(Error::ExternalCommandFailure(
            "wg-quick: `wg0' already exists\n".to_string()
        )))
    );
    assert_eq!(subject, model());
}

#[test]
fn start_reports_a_command_that_could_not_be_started() {
    assert_eq!(
        model().start(0, &vec![Outcome::Unavailable]),
        Step::Done(Err(Error::ExternalCommandUnavailable("wg-quick".to_string())))
    );
}

#[test]
fn start_of_a_missing_server_is_not_found() {
    assert_eq!(model().start(1, &vec![]), Step::Done(Err(Error::NotFound)));
    assert_eq!(model().start(7, &vec![exited(true, "", "")]), Step::Done(Err(Error::NotFound)));
    assert_eq!(Wg::new().start(0, &vec![]), Step::Done(Err(Error::NotFound)));
}

#[test]
fn stop_writes_the_configuration_and_takes_the_interface_down() {
    assert_eq!(model().stop(0, &vec![]), quick("down"));
    assert_eq!(model().stop(0, &vec![exited(true, "", "")]), Step::Done(Ok(())));
    assert_eq!(
        model().stop(0, &vec![exited(false, "", "not up")]),
        Step::Done(Err(Error::ExternalCommandFailure("not up".to_string())))
    );
    assert_eq!(model().stop(1, &vec![]), Step::Done(Err(Error::NotFound)));
}

#[test]
fn hot_reload_strips_the_configuration_first() {
    assert_eq!(model().hot_reload(0, &vec![]), quick("strip"));
}

#[test]
fn hot_reload_hands_what_was_stripped_to_the_running_interface() {
    let step = model().hot_reload(0, &vec![exited(true, "[Interface]\nListenPort = 51820\n", "")]);
    assert_eq!(
        step,
        Step::Run(Job {
            file: Some(File {
                path: "/tmp/update_wg0.conf".to_string(),
                contents: "[Interface]\nListenPort = 51820\n".to_string(),
            }),
            command: command("wg", &["syncconf", "wg0", "/tmp/update_wg0.conf"], None),
        })
    );
}

#[test]
fn hot_reload_ends_with_the_second_command() {
    let stripped = exited(true, "stripped", "");
    assert_eq!(
        model().hot_reload(0, &vec![stripped, exited(true, "", "")]),
        Step::Done(Ok(()))
    );
    assert_eq!(
        model().hot_reload(0, &vec![exited(true, "stripped", ""), exited(false, "", "no device")]),
        Step::Done(Err(Error::ExternalCommandFailure("no device".to_string())))
    );
    assert_eq!(
        model().hot_reload(0, &vec![exited(true, "stripped", ""), Outcome::Unavailable]),
        Step::Done(Err(Error::ExternalCommandUnavailable("wg".to_string())))
    );
}

#[test]
fn hot_reload_stops_where_stripping_fails() {
    assert_eq!(
        model().hot_reload(0, &vec![exited(false, "", "bad config")]),
        Step::Done(Err(Error::ExternalCommandFailure("bad config".to_string())))
    );
    assert_eq!(
        model().hot_reload(0, &vec![exited(false, "", "bad config"), exited(true, "", "")]),
        Step::Done(Err(Error::ExternalCommandFailure("bad config".to_string())))
    );
    assert_eq!(model().hot_reload(3, &vec![]), Step::Done(Err(Error::NotFound)));
}

#[test]
fn get_keys_generates_a_private_key_first() {
    assert_eq!(
        Wg::get_keys(&vec![]),
        Step::Run(Job { file: None, command: command("wg", &["genkey"], None) })
    );
}

#[test]
fn get_keys_derives_the_public_key_from_the_trimmed_private_key() {
    assert_eq!(
        Wg::get_keys(&vec![exited(true, "cHJpdmF0ZQ==\n", "")]),
        Step::Run(Job { file: None, command: command("wg", &["pubkey"], Some("cHJpdmF0ZQ==")) })
    );
}

#[test]
fn get_keys_gives_both_keys_trimmed() {
    assert_eq!(
        Wg::get_keys(&vec![exited(true, " cHJpdmF0ZQ==\n", ""), exited(true, "cHVibGlj\r\n", "")]),
        Step::Done(Ok(("cHJpdmF0ZQ==".to_string(), "cHVibGlj".to_string())))
    );
}

#[test]
fn get_keys_fails_with_the_first_command_that_fails() {
    assert_eq!(
        Wg::get_keys(&vec![exited(false, "", "genkey failed")]),
        Step::Done(Err(Error::ExternalCommandFailure("genkey failed".to_string())))
    );
    assert_eq!(
        Wg::get_keys(&vec![Outcome::Unavailable]),
        Step::Done(Err(Error::ExternalCommandUnavailable("wg".to_string())))
    );
    assert_eq!(
        Wg::get_keys(&vec![exited(true, "k\n", ""), exited(false, "", "pubkey failed")]),
        Step::Done(Err(Error::ExternalCommandFailure("pubkey failed".to_string())))
    );
    assert_eq!(
        Wg::get_keys(&vec![exited(false, "", "first"), exited(true, "p\n", "")]),
        Step::Done(Err(Error::ExternalCommandFailure("first".to_string())))
    );
}

#[test]
fn server_status_asks_for_the_interfaces() {
    assert_eq!(
        Wg::server_status(&vec![]),
        Step::Run(Job { file: None, command: command("wg", &["show", "interfaces"], None) })
    );
}

#[test]
fn server_status_gives_the_names_that_were_printed() {
    assert_eq!(
        Wg::server_status(&vec![exited(true, "wg0 wg1\n", "")]),
        Step::Done(Ok(NameSet { names: vec!["wg0".to_string(), "wg1".to_string()] }))
    );
    assert_eq!(
        Wg::server_status(&vec![exited(true, "\n", "")]),
        Step::Done(Ok(NameSet { names: vec![] }))
    );
}

#[test]
fn server_status_reports_failure() {
    assert_eq!(
        Wg::server_status(&vec![exited(false, "", "denied")]),
        Step::Done(Err(Error::ExternalCommandFailure("denied".to_string())))
    );
    assert_eq!(
        Wg::server_status(&vec![Outcome::Unavailable]),
        Step::Done(Err(Error::ExternalCommandUnavailable("wg".to_string())))
    );
}

#[test]
fn name_set_contains_what_was_put_in() {
    let set = NameSet { names: vec!["wg0".to_string(), "wg1".to_string(), "wg0".to_string()] };
    assert!(set.contains(&"wg0".to_string()));
    assert!(set.contains(&"wg1".to_string()));
    assert!(!set.contains(&"wg".to_string()));
    assert!(!NameSet { names: vec![] }.contains(&"wg0".to_string()));
}

#[test]
fn every_operation_ends_after_two_commands() {
    let two = vec![exited(true, "a\n", ""), exited(true, "b\n", "")];
    assert!(matches!(model().start(0, &two), Step::Done(_)));
    assert!(matches!(model().stop(0, &two), Step::Done(_)));
    assert!(matches!(model().hot_reload(0, &two), Step::Done(_)));
    assert!(matches!(Wg::get_keys(&two), Step::Done(_)));
    assert!(matches!(Wg::server_status(&two), Step::Done(_)));
}
