//! The boundary between the engine and the outside world. The engine never
//! starts a process or touches a file: an operation hands out a `Step` that
//! says what is to be done next, and is called again with the `Outcome` of
//! everything done so far.

use vstd::prelude::*;
use vstd::string::*;

verus! {

/// Why an operation failed.
#[derive(Debug, PartialEq, Eq)]
pub enum Error {
    /// No server, or no peer, has the index that was given.
    NotFound,
    /// A command ran and reported failure; holds what it wrote to standard error.
    ExternalCommandFailure(String),
    /// A command could not be started; holds the name of its program.
    ExternalCommandUnavailable(String),
    /// The model was changed in memory and could not be written out.
    PersistenceFailure,
}

/// An `Error`, its texts as sequences of characters.
pub enum ErrorView {
    NotFound,
    ExternalCommandFailure(Seq<char>),
    ExternalCommandUnavailable(Seq<char>),
    PersistenceFailure,
}

impl View for Error {
    type V = ErrorView;

    open spec fn view(&self) -> ErrorView {
        match self {
            Error::NotFound => ErrorView::NotFound,
            Error::ExternalCommandFailure(text) => ErrorView::ExternalCommandFailure(text@),
            Error::ExternalCommandUnavailable(program) => ErrorView::ExternalCommandUnavailable(
                program@,
            ),
            Error::PersistenceFailure => ErrorView::PersistenceFailure,
        }
    }
}

impl ErrorView {
    /// The sentence that describes the error to a reader.
    pub open spec fn detail(self) -> Seq<char> {
        match self {
            ErrorView::NotFound => "no server or peer has this index"@,
            ErrorView::ExternalCommandFailure(text) => text,
            ErrorView::ExternalCommandUnavailable(program) => "could not start "@ + program,
            ErrorView::PersistenceFailure => "the model could not be written to storage"@,
        }
    }
}

impl Error {
    /// Describes the error; what a failed command wrote to standard error is
    /// given as it was written.
    pub fn detail(&self) -> (text: String)
        ensures
            text@ == self@.detail(),
    {
        match self {
            Error::NotFound => String::from_str("no server or peer has this index"),
            Error::ExternalCommandFailure(text) => text.clone(),
            Error::ExternalCommandUnavailable(program) => {
                let mut text = String::from_str("could not start ");
                text.append(program.as_str());
                text
            },
            Error::PersistenceFailure => String::from_str(
                "the model could not be written to storage",
            ),
        }
    }
}

/// A program to run, with its arguments and what it reads from standard input.
#[derive(Debug, PartialEq, Eq)]
pub struct Command {
    pub program: String,
    pub args: Vec<String>,
    pub stdin: Option<String>,
}

/// A `Command`, its texts as sequences of characters.
pub struct CommandView {
    pub program: Seq<char>,
    pub args: Seq<Seq<char>>,
    pub stdin: Option<Seq<char>>,
}

impl View for Command {
    type V = CommandView;

    open spec fn view(&self) -> CommandView {
        CommandView {
            program: self.program@,
            args: self.args.deep_view(),
            stdin: self.stdin.deep_view(),
        }
    }
}

/// A file to write, whole.
#[derive(Debug, PartialEq, Eq)]
pub struct File {
    pub path: String,
    pub contents: String,
}

/// A `File`, its texts as sequences of characters.
pub struct FileView {
    pub path: Seq<char>,
    pub contents: Seq<char>,
}

impl View for File {
    type V = FileView;

    open spec fn view(&self) -> FileView {
        FileView { path: self.path@, contents: self.contents@ }
    }
}

/// One round of outside work: a file to write first, where there is one, and
/// then a command to run.
#[derive(Debug, PartialEq, Eq)]
pub struct Job {
    pub file: Option<File>,
    pub command: Command,
}

/// A `Job`, its texts as sequences of characters.
pub struct JobView {
    pub file: Option<FileView>,
    pub command: CommandView,
}

impl View for Job {
    type V = JobView;

    open spec fn view(&self) -> JobView {
        JobView {
            file: match self.file {
                Some(file) => Some(file@),
                None => None,
            },
            command: self.command@,
        }
    }
}

/// What a command that ran to its end left behind.
#[derive(Debug, PartialEq, Eq)]
pub struct Output {
    pub success: bool,
    pub stdout: String,
    pub stderr: String,
}

/// An `Output`, its texts as sequences of characters.
pub struct OutputView {
    pub success: bool,
    pub stdout: Seq<char>,
    pub stderr: Seq<char>,
}

impl View for Output {
    type V = OutputView;

    open spec fn view(&self) -> OutputView {
        OutputView { success: self.success, stdout: self.stdout@, stderr: self.stderr@ }
    }
}

/// How the last step ended.
#[derive(Debug, PartialEq, Eq)]
pub enum Outcome {
    /// The command of a `Step::Run` ran to its end.
    Exited(Output),
    /// The command of a `Step::Run` could not be started.
    Unavailable,
    /// After a `Step::Persist`: the model is on durable storage.
    Persisted,
    /// After a `Step::Persist`: the model could not be written.
    NotPersisted,
}

/// An `Outcome`, its texts as sequences of characters.
pub enum OutcomeView {
    Exited(OutputView),
    Unavailable,
    Persisted,
    NotPersisted,
}

impl View for Outcome {
    type V = OutcomeView;

    open spec fn view(&self) -> OutcomeView {
        match self {
            Outcome::Exited(output) => OutcomeView::Exited(output@),
            Outcome::Unavailable => OutcomeView::Unavailable,
            Outcome::Persisted => OutcomeView::Persisted,
            Outcome::NotPersisted => OutcomeView::NotPersisted,
        }
    }
}

impl DeepView for Outcome {
    type V = OutcomeView;

    open spec fn deep_view(&self) -> OutcomeView {
        self@
    }
}

/// What an operation asks for next.
#[derive(Debug, PartialEq, Eq)]
pub enum Step<T> {
    /// Do this job, add its outcome to the outcomes so far, and ask again.
    Run(Job),
    /// Write the whole model to durable storage, add the outcome, and ask again.
    Persist,
    /// The operation is over, with this result.
    Done(Result<T, Error>),
}

/// A `Step`, with the view of what it holds.
pub enum StepView<V> {
    Run(JobView),
    Persist,
    Done(Result<V, ErrorView>),
}

impl<T: DeepView> View for Step<T> {
    type V = StepView<T::V>;

    open spec fn view(&self) -> StepView<T::V> {
        match self {
            Step::Run(job) => StepView::Run(job@),
            Step::Persist => StepView::Persist,
            Step::Done(result) => StepView::Done(result_view(*result)),
        }
    }
}

/// A result as contracts speak of it: the view of what it holds.
pub open spec fn result_view<T: DeepView>(result: Result<T, Error>) -> Result<T::V, ErrorView> {
    match result {
        Ok(value) => Ok(value.deep_view()),
        Err(error) => Err(error@),
    }
}

/// What a command gave: its standard output where it ran and reported
/// success, and else the error that says how it failed.
pub open spec fn command_result(program: Seq<char>, outcome: OutcomeView) -> Result<
    Seq<char>,
    ErrorView,
> {
    match outcome {
        OutcomeView::Exited(output) => if output.success {
            Ok(output.stdout)
        } else {
            Err(ErrorView::ExternalCommandFailure(output.stderr))
        },
        _ => Err(ErrorView::ExternalCommandUnavailable(program)),
    }
}

/// Reads the outcome of a run of `program`.
pub fn read_outcome(program: &str, outcome: &Outcome) -> (result: Result<String, Error>)
    ensures
        result_view(result) == command_result(program@, outcome@),
{
    match outcome {
        Outcome::Exited(output) => if output.success {
            Ok(output.stdout.clone())
        } else {
            Err(Error::ExternalCommandFailure(output.stderr.clone()))
        },
        _ => Err(Error::ExternalCommandUnavailable(String::from_str(program))),
    }
}

/// Whether the model reached durable storage: only `Persisted` says so.
pub open spec fn persist_result(outcome: OutcomeView) -> Result<(), ErrorView> {
    match outcome {
        OutcomeView::Persisted => Ok(()),
        _ => Err(ErrorView::PersistenceFailure),
    }
}

/// Reads the outcome of a `Step::Persist`.
pub fn read_persisted(outcome: &Outcome) -> (result: Result<(), Error>)
    ensures
        result_view(result) == persist_result(outcome@),
{
    match outcome {
        Outcome::Persisted => Ok(()),
        _ => Err(Error::PersistenceFailure),
    }
}

} // verus!
