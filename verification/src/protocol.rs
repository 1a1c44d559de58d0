//! How a build talks to its driver. The build decides; the driver does what
//! touches the machine. Each step of a build takes the answer to the last
//! request as an `Event` and hands back the next request as an `Action`.

use vstd::prelude::*;
use crate::command::{Invocation, InvocationModel, ProcessOutput};
use crate::error::{BuildError, ErrorKind, Failure};
use crate::layout::ExtensionLayout;
use crate::manifest::SemanticVersion;

verus! {

/// What a build asks of its driver.
#[derive(Debug, PartialEq, Eq)]
pub enum Action {
    /// Look at what is on disk under `root`; answered by `Event::Layout`.
    Survey { root: String },
    /// Create a directory and its parents; answered by `Event::Done`.
    CreateDirAll { path: String },
    /// Tell whether a path exists; answered by `Event::Exists`.
    PathExists { path: String },
    /// Read a file as text; answered by `Event::Text`.
    ReadText { path: String },
    /// Read a file as bytes; answered by `Event::Bytes`.
    ReadBytes { path: String },
    /// Write a file; answered by `Event::Done`.
    WriteBytes { path: String, bytes: Vec<u8> },
    /// Run a tool to its end; answered by `Event::Ran`.
    Run(Invocation),
    /// Find a program on this machine; answered by `Event::Program`.
    FindProgram { name: String },
    /// Read a variable of the environment; answered by `Event::Variable`.
    ReadVariable { name: String },
    /// Read the version of the extension interface out of a compiled
    /// library; answered by `Event::Version`.
    ReadVersion { extension_id: String, bytes: Vec<u8> },
    /// The work is over, with this result. Nothing more is asked.
    Finish(Result<(), BuildError>),
}

/// What a driver answers. `Start` answers nothing: it sets a build going.
#[derive(Debug, PartialEq, Eq)]
pub enum Event {
    Start,
    Layout(ExtensionLayout),
    /// A directory was created or a file written, or the system's message
    /// says why not.
    Done(Result<(), String>),
    Exists(bool),
    Text(Result<String, String>),
    Bytes(Result<Vec<u8>, String>),
    /// How the tool ended, or why it could not be run.
    Ran(Result<ProcessOutput, String>),
    /// The path of the program, or why it was not found.
    Program(Result<String, String>),
    /// The variable's value, if it is set.
    Variable(Option<String>),
    /// The version, or why the library holds none.
    Version(Result<SemanticVersion, String>),
}

/// The result of finished work as a value of the model.
pub open spec fn outcome(result: Result<(), BuildError>) -> Result<(), Failure> {
    match result {
        Ok(_) => Ok(()),
        Err(error) => Err(error@),
    }
}

/// A request as a value of the model.
pub enum Request {
    Survey { root: Seq<char> },
    CreateDirAll { path: Seq<char> },
    PathExists { path: Seq<char> },
    ReadText { path: Seq<char> },
    ReadBytes { path: Seq<char> },
    WriteBytes { path: Seq<char>, bytes: Seq<u8> },
    Run(InvocationModel),
    FindProgram { name: Seq<char> },
    ReadVariable { name: Seq<char> },
    ReadVersion { extension_id: Seq<char>, bytes: Seq<u8> },
    Finish(Result<(), Failure>),
}

impl View for Action {
    type V = Request;

    open spec fn view(&self) -> Request {
        match *self {
            Action::Survey { root } => Request::Survey { root: root@ },
            Action::CreateDirAll { path } => Request::CreateDirAll { path: path@ },
            Action::PathExists { path } => Request::PathExists { path: path@ },
            Action::ReadText { path } => Request::ReadText { path: path@ },
            Action::ReadBytes { path } => Request::ReadBytes { path: path@ },
            Action::WriteBytes { path, bytes } => Request::WriteBytes {
                path: path@,
                bytes: bytes@,
            },
            Action::Run(invocation) => Request::Run(invocation@),
            Action::FindProgram { name } => Request::FindProgram { name: name@ },
            Action::ReadVariable { name } => Request::ReadVariable { name: name@ },
            Action::ReadVersion { extension_id, bytes } => Request::ReadVersion {
                extension_id: extension_id@,
                bytes: bytes@,
            },
            Action::Finish(result) => Request::Finish(outcome(result)),
        }
    }
}

/// A failure with its cause alone.
pub open spec fn failure(kind: ErrorKind, cause: Seq<char>) -> Failure {
    Failure { kind, chain: seq![cause] }
}

/// A failure under one more layer of context.
pub open spec fn in_context(context: Seq<char>, failure: Failure) -> Failure {
    Failure { kind: failure.kind, chain: seq![context] + failure.chain }
}

/// The failure of a build whose driver answered a request with something
/// else than what was asked.
pub open spec fn unexpected() -> Failure {
    failure(ErrorKind::Protocol, "the driver's answer does not fit the request"@)
}

/// The end of a build whose driver answered a request with something else
/// than what was asked.
pub fn reject() -> (action: Action)
    ensures
        action@ == Request::Finish(Err(unexpected())),
{
    Action::Finish(
        Err(
            BuildError::new(
                ErrorKind::Protocol,
                String::from_str("the driver's answer does not fit the request"),
            ),
        ),
    )
}

/// The end of a build that failed for `cause`.
pub fn fail(kind: ErrorKind, cause: String) -> (action: Action)
    ensures
        action@ == Request::Finish(Err(failure(kind, cause@))),
{
    Action::Finish(Err(BuildError::new(kind, cause)))
}

/// The end of a build that failed for `cause` while doing `context`.
pub fn fail_in(kind: ErrorKind, context: &str, cause: String) -> (action: Action)
    ensures
        action@ == Request::Finish(Err(in_context(context@, failure(kind, cause@)))),
{
    Action::Finish(Err(BuildError::new(kind, cause).context(String::from_str(context))))
}

/// Tells whether an event is an answer to a request, by its kind.
pub open spec fn answers(request: Request, event: Event) -> bool {
    match request {
        Request::Survey { .. } => event is Layout,
        Request::CreateDirAll { .. } => event is Done,
        Request::PathExists { .. } => event is Exists,
        Request::ReadText { .. } => event is Text,
        Request::ReadBytes { .. } => event is Bytes,
        Request::WriteBytes { .. } => event is Done,
        Request::Run(_) => event is Ran,
        Request::FindProgram { .. } => event is Program,
        Request::ReadVariable { .. } => event is Variable,
        Request::ReadVersion { .. } => event is Version,
        Request::Finish(_) => false,
    }
}

/// Tells whether a request ends the work because the driver's answer did
/// not fit.
pub open spec fn blames_the_driver(request: Request) -> bool {
    request matches Request::Finish(Err(reason)) && reason.kind == ErrorKind::Protocol
}

} // verus!
