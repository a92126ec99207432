//! The operations that reach outside the model: bringing an interface up,
//! taking it down, bringing its peers up to date, making keys, and asking
//! which interfaces are up. Each is told step by step: called with the
//! outcomes of the steps taken so far, it says what is to be done next.

use crate::command::{command_result, read_outcome};
use crate::command::{Command, CommandView, Error, ErrorView, File, FileView, Job, JobView};
use crate::command::{Outcome, OutcomeView, Step, StepView};
use crate::names::NameSet;
use crate::text::{split_words, trim, trimmed, words};
use crate::wghelper::{Server, ServerView, Wg};
use vstd::prelude::*;
use vstd::string::*;

verus! {

/// A command that reads nothing from standard input.
pub open spec fn command(program: Seq<char>, args: Seq<Seq<char>>) -> CommandView {
    CommandView { program, args, stdin: None }
}

/// The step that runs `command` with no file to write before it.
pub open spec fn run<V>(command: CommandView) -> StepView<V> {
    StepView::Run(JobView { file: None, command })
}

/// The step that writes `contents` to `path` and then runs `command`.
pub open spec fn write_and_run<V>(
    path: Seq<char>,
    contents: Seq<char>,
    command: CommandView,
) -> StepView<V> {
    StepView::Run(JobView { file: Some(FileView { path, contents }), command })
}

/// What an operation on a server or a peer answers where there is none.
pub open spec fn not_found<V>() -> StepView<V> {
    StepView::Done(Err(ErrorView::NotFound))
}

/// `step` without the value that it may end with.
pub open spec fn forget<V>(step: StepView<V>) -> StepView<()> {
    match step {
        StepView::Run(job) => StepView::Run(job),
        StepView::Persist => StepView::Persist,
        StepView::Done(Ok(_)) => StepView::Done(Ok(())),
        StepView::Done(Err(error)) => StepView::Done(Err(error)),
    }
}

/// The end of an operation whose last command gave `outcome`, where only
/// success or failure of the command matters.
pub open spec fn settled(program: Seq<char>, outcome: OutcomeView) -> StepView<()> {
    StepView::Done(
        match command_result(program, outcome) {
            Ok(_) => Ok(()),
            Err(error) => Err(error),
        },
    )
}

/// Where the part of the configuration of the server called `name` that a
/// running interface can take over is written.
pub open spec fn update_path(name: Seq<char>) -> Seq<char> {
    "/tmp/update_"@ + name + ".conf"@
}

/// How a pair of keys is made: a private key is generated, and the public
/// key is derived from it. A key is what the command wrote, without the white
/// space around it. The first command that fails ends the making.
pub open spec fn keys_step(outcomes: Seq<OutcomeView>) -> StepView<(Seq<char>, Seq<char>)> {
    if outcomes.len() == 0 {
        run(command("wg"@, seq!["genkey"@]))
    } else {
        match command_result("wg"@, outcomes[0]) {
            Err(error) => StepView::Done(Err(error)),
            Ok(generated) => {
                let private = trimmed(generated);
                if outcomes.len() == 1 {
                    run(
                        CommandView {
                            program: "wg"@,
                            args: seq!["pubkey"@],
                            stdin: Some(private),
                        },
                    )
                } else {
                    match command_result("wg"@, outcomes[1]) {
                        Err(error) => StepView::Done(Err(error)),
                        Ok(derived) => StepView::Done(Ok((private, trimmed(derived)))),
                    }
                }
            },
        }
    }
}

/// Listing the interfaces that are up: `wg show interfaces` prints their
/// names with white space between them.
pub open spec fn status_step(outcomes: Seq<OutcomeView>) -> StepView<Set<Seq<char>>> {
    if outcomes.len() == 0 {
        run(command("wg"@, seq!["show"@, "interfaces"@]))
    } else {
        StepView::Done(
            match command_result("wg"@, outcomes[0]) {
                Ok(printed) => Ok(words(printed).to_set()),
                Err(error) => Err(error),
            },
        )
    }
}

impl ServerView {
    /// The step that writes the configuration of the interface to its path
    /// and hands the path to `wg-quick` with `verb`.
    pub open spec fn quick(self, verb: Seq<char>) -> StepView<()> {
        write_and_run(
            self.path,
            self.interface_config(),
            command("wg-quick"@, seq![verb, self.path]),
        )
    }

    /// Bringing the interface up: the configuration is written and
    /// `wg-quick up` run on it; the interface is up if that succeeds, and else
    /// the failure of the command is the failure of the operation.
    pub open spec fn start_step(self, outcomes: Seq<OutcomeView>) -> StepView<()> {
        if outcomes.len() == 0 {
            self.quick("up"@)
        } else {
            settled("wg-quick"@, outcomes[0])
        }
    }

    /// Taking the interface down: as `start_step`, with `wg-quick down`.
    pub open spec fn stop_step(self, outcomes: Seq<OutcomeView>) -> StepView<()> {
        if outcomes.len() == 0 {
            self.quick("down"@)
        } else {
            settled("wg-quick"@, outcomes[0])
        }
    }

    /// Bringing the peers of a running interface up to date without taking it
    /// down: the configuration is written and stripped by `wg-quick strip` to
    /// what the interface can take over; what that command prints is written
    /// to a file of its own and handed to `wg syncconf` under the name of the
    /// interface. The first command that fails ends the operation.
    pub open spec fn reload_step(self, outcomes: Seq<OutcomeView>) -> StepView<()> {
        if outcomes.len() == 0 {
            self.quick("strip"@)
        } else {
            match command_result("wg-quick"@, outcomes[0]) {
                Err(error) => StepView::Done(Err(error)),
                Ok(stripped) => if outcomes.len() == 1 {
                    write_and_run(
                        update_path(self.name),
                        stripped,
                        command("wg"@, seq!["syncconf"@, self.name, update_path(self.name)]),
                    )
                } else {
                    settled("wg"@, outcomes[1])
                },
            }
        }
    }
}

/// A command that fails is reported with what it wrote to standard error, as
/// it wrote it, and one that cannot be started with the name of its program.
/// Bringing an interface up fails in this way with its one command; the model
/// is not touched by it.
pub proof fn failure_is_reported(server: ServerView, outcome: OutcomeView)
    ensures
        match outcome {
            OutcomeView::Exited(output) => server.start_step(seq![outcome]) == StepView::<
                (),
            >::Done(
                if output.success {
                    Ok(())
                } else {
                    Err(ErrorView::ExternalCommandFailure(output.stderr))
                },
            ),
            _ => server.start_step(seq![outcome]) == StepView::<()>::Done(
                Err(ErrorView::ExternalCommandUnavailable("wg-quick"@)),
            ),
        },
{
}

/// Every operation comes to an end: two commands at most are run for it.
pub proof fn operations_end(server: ServerView, outcomes: Seq<OutcomeView>)
    requires
        outcomes.len() >= 2,
    ensures
        server.start_step(outcomes) is Done,
        server.stop_step(outcomes) is Done,
        server.reload_step(outcomes) is Done,
        keys_step(outcomes) is Done,
        status_step(outcomes) is Done,
{
}

/// Builds a command that reads nothing from standard input.
fn new_command(program: &str, first: &str, rest: Vec<String>) -> (made: Command)
    ensures
        made@ == command(program@, seq![first@] + rest.deep_view()),
{
    let mut args: Vec<String> = Vec::new();
    args.push(String::from_str(first));
    let mut rest = rest;
    let ghost tail = rest.deep_view();
    args.append(&mut rest);
    assert(args.deep_view() =~= seq![first@] + tail);
    Command { program: String::from_str(program), args, stdin: None }
}

/// Ends an operation whose last command gave `outcome`.
fn settle(program: &str, outcome: &Outcome) -> (step: Step<()>)
    ensures
        step@ == settled(program@, outcome@),
{
    match read_outcome(program, outcome) {
        Ok(_) => Step::Done(Ok(())),
        Err(error) => Step::Done(Err(error)),
    }
}

impl Server {
    /// The step that writes the configuration and runs `wg-quick` on it.
    fn quick(&self, verb: &str) -> (step: Step<()>)
        ensures
            step@ == self@.quick(verb@),
    {
        let mut rest: Vec<String> = Vec::new();
        rest.push(self.path.clone());
        assert(seq![verb@] + rest.deep_view() =~= seq![verb@, self.path@]);
        Step::Run(
            Job {
                file: Some(File { path: self.path.clone(), contents: self.interface_config() }),
                command: new_command("wg-quick", verb, rest),
            },
        )
    }

    /// Brings the interface up. See `ServerView::start_step`.
    pub fn start(&self, outcomes: &Vec<Outcome>) -> (step: Step<()>)
        ensures
            step@ == self@.start_step(outcomes.deep_view()),
    {
        if outcomes.len() == 0 {
            self.quick("up")
        } else {
            settle("wg-quick", &outcomes[0])
        }
    }

    /// Takes the interface down. See `ServerView::stop_step`.
    pub fn stop(&self, outcomes: &Vec<Outcome>) -> (step: Step<()>)
        ensures
            step@ == self@.stop_step(outcomes.deep_view()),
    {
        if outcomes.len() == 0 {
            self.quick("down")
        } else {
            settle("wg-quick", &outcomes[0])
        }
    }

    /// Brings the peers of the running interface up to date. See
    /// `ServerView::reload_step`.
    pub fn hot_reload(&self, outcomes: &Vec<Outcome>) -> (step: Step<()>)
        ensures
            step@ == self@.reload_step(outcomes.deep_view()),
    {
        if outcomes.len() == 0 {
            return self.quick("strip");
        }
        match read_outcome("wg-quick", &outcomes[0]) {
            Err(error) => Step::Done(Err(error)),
            Ok(stripped) => {
                if outcomes.len() == 1 {
                    let mut path = String::from_str("/tmp/update_");
                    path.append(self.name.as_str());
                    path.append(".conf");
                    let mut rest: Vec<String> = Vec::new();
                    rest.push(self.name.clone());
                    rest.push(path.clone());
                    assert(seq!["syncconf"@] + rest.deep_view() =~= seq![
                        "syncconf"@,
                        self.name@,
                        path@,
                    ]);
                    Step::Run(
                        Job {
                            file: Some(File { path, contents: stripped }),
                            command: new_command("wg", "syncconf", rest),
                        },
                    )
                } else {
                    settle("wg", &outcomes[1])
                }
            },
        }
    }
}

impl Wg {
    /// Brings up the interface of the server at `server_id`.
    pub fn start(&self, server_id: usize, outcomes: &Vec<Outcome>) -> (step: Step<()>)
        ensures
            step@ == if server_id < self@.len() {
                self@[server_id as int].start_step(outcomes.deep_view())
            } else {
                not_found()
            },
    {
        if server_id < self.servers.len() {
            self.servers[server_id].start(outcomes)
        } else {
            Step::Done(Err(Error::NotFound))
        }
    }

    /// Takes down the interface of the server at `server_id`.
    pub fn stop(&self, server_id: usize, outcomes: &Vec<Outcome>) -> (step: Step<()>)
        ensures
            step@ == if server_id < self@.len() {
                self@[server_id as int].stop_step(outcomes.deep_view())
            } else {
                not_found()
            },
    {
        if server_id < self.servers.len() {
            self.servers[server_id].stop(outcomes)
        } else {
            Step::Done(Err(Error::NotFound))
        }
    }

    /// Brings the peers of the running interface of the server at `server_id`
    /// up to date. Whether the interface is up is not asked.
    pub fn hot_reload(&self, server_id: usize, outcomes: &Vec<Outcome>) -> (step: Step<()>)
        ensures
            step@ == if server_id < self@.len() {
                self@[server_id as int].reload_step(outcomes.deep_view())
            } else {
                not_found()
            },
    {
        if server_id < self.servers.len() {
            self.servers[server_id].hot_reload(outcomes)
        } else {
            Step::Done(Err(Error::NotFound))
        }
    }

    /// Makes a pair of keys, private key first. See `keys_step`.
    pub fn get_keys(outcomes: &Vec<Outcome>) -> (step: Step<(String, String)>)
        ensures
            step@ == keys_step(outcomes.deep_view()),
    {
        if outcomes.len() == 0 {
            return Step::Run(Job { file: None, command: new_command("wg", "genkey", Vec::new()) });
        }
        let private = match read_outcome("wg", &outcomes[0]) {
            Err(error) => {
                return Step::Done(Err(error));
            },
            Ok(generated) => trim(generated.as_str()),
        };
        if outcomes.len() == 1 {
            let mut derive = new_command("wg", "pubkey", Vec::new());
            derive.stdin = Some(private);
            return Step::Run(Job { file: None, command: derive });
        }
        match read_outcome("wg", &outcomes[1]) {
            Err(error) => Step::Done(Err(error)),
            Ok(derived) => Step::Done(Ok((private, trim(derived.as_str())))),
        }
    }

    /// Lists the interfaces that are up. See `status_step`.
    pub fn server_status(outcomes: &Vec<Outcome>) -> (step: Step<NameSet>)
        ensures
            step@ == status_step(outcomes.deep_view()),
    {
        if outcomes.len() == 0 {
            let mut rest: Vec<String> = Vec::new();
            rest.push(String::from_str("interfaces"));
            assert(seq!["show"@] + rest.deep_view() =~= seq!["show"@, "interfaces"@]);
            return Step::Run(Job { file: None, command: new_command("wg", "show", rest) });
        }
        match read_outcome("wg", &outcomes[0]) {
            Ok(printed) => Step::Done(Ok(NameSet { names: split_words(printed.as_str()) })),
            Err(error) => Step::Done(Err(error)),
        }
    }
}

} // verus!
