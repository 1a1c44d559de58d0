//! Fetching one revision of a repository into a directory.
//!
//! A directory that is there is taken to hold the revision: nothing is
//! fetched and nothing is checked. Otherwise the directory is created, a
//! repository is set up in it with the URL as its origin, the one revision
//! is fetched without history, and it is checked out.

use vstd::prelude::*;
use crate::command::{
    git_checkout,
    git_checkout_of,
    git_fetch,
    git_fetch_of,
    git_init,
    git_init_of,
    git_remote_add,
    git_remote_add_of,
};
use crate::error::{ErrorKind, Failure};
use crate::protocol::{
    answers,
    blames_the_driver,
    fail,
    fail_in,
    failure,
    in_context,
    reject,
    unexpected,
    Action,
    Event,
    Request,
};
use crate::text::{join, join_path};

verus! {

/// How far a checkout has come: what it waits for.
#[derive(Clone, Copy, Debug, PartialEq, Eq, Structural)]
pub enum CheckoutStage {
    /// Nothing was asked yet.
    Idle,
    /// Whether the directory exists.
    CheckingDirectory,
    /// The creation of the directory.
    CreatingDirectory,
    /// The end of `git init`.
    Initializing,
    /// The end of `git remote add`.
    AddingRemote,
    /// The end of the fetch.
    Fetching,
    /// The end of `git checkout`, after a fetch that succeeded or not.
    CheckingOut { fetched: bool },
    /// Nothing: the checkout is over.
    Finished,
}

/// The checkout of the revision `rev` of the repository at `url` into
/// `directory`.
#[derive(Clone, Debug, PartialEq, Eq)]
pub struct Checkout {
    pub directory: String,
    pub url: String,
    pub rev: String,
    pub stage: CheckoutStage,
}

/// A checkout as a value of the model.
pub struct CheckoutModel {
    pub directory: Seq<char>,
    pub url: Seq<char>,
    pub rev: Seq<char>,
    pub stage: CheckoutStage,
}

/// One step of a checkout: the stage it moves to and what it asks.
pub struct CheckoutTurn {
    pub stage: CheckoutStage,
    pub request: Request,
}

impl View for Checkout {
    type V = CheckoutModel;

    open spec fn view(&self) -> CheckoutModel {
        CheckoutModel {
            directory: self.directory@,
            url: self.url@,
            rev: self.rev@,
            stage: self.stage,
        }
    }
}

/// The end of a checkout.
pub open spec fn ends(result: Result<(), Failure>) -> CheckoutTurn {
    CheckoutTurn { stage: CheckoutStage::Finished, request: Request::Finish(result) }
}

/// The message of a directory that could not be created.
pub open spec fn create_failed(directory: Seq<char>) -> Seq<char> {
    "failed to create grammar directory "@ + directory
}

/// The message of a `git init` that failed.
pub open spec fn init_failed(directory: Seq<char>) -> Seq<char> {
    "failed to run `git init` in directory '"@ + directory + "'"@
}

/// The message of a `git remote add` that failed.
pub open spec fn remote_failed(directory: Seq<char>, url: Seq<char>) -> Seq<char> {
    "failed to add remote "@ + url + " for git repository "@ + join_path(directory, ".git"@)
}

/// The message of a fetch that failed.
pub open spec fn fetch_failed(directory: Seq<char>, rev: Seq<char>) -> Seq<char> {
    "failed to fetch revision "@ + rev + " in directory '"@ + directory + "'"@
}

/// The message of a `git checkout` that failed: it names the revision and
/// the directory and ends in what the tool wrote to its error stream.
pub open spec fn checkout_failed(directory: Seq<char>, rev: Seq<char>, stderr: Seq<char>) -> Seq<
    char,
> {
    "failed to checkout revision "@ + rev + " in directory '"@ + directory + "': "@ + stderr
}

/// What a checkout does with the answer to its last request.
///
/// A tool that cannot be run ends the checkout, and so does one of the first
/// two that reports failure. A fetch that reports failure does not: the
/// checkout is tried all the same, and only if that fails too is the fetch
/// blamed. An answer that does not fit the request ends the checkout.
pub open spec fn checkout_turn(checkout: CheckoutModel, event: Event) -> CheckoutTurn {
    let directory = checkout.directory;
    match (checkout.stage, event) {
        (CheckoutStage::Idle, Event::Start) => CheckoutTurn {
            stage: CheckoutStage::CheckingDirectory,
            request: Request::PathExists { path: directory },
        },
        (CheckoutStage::CheckingDirectory, Event::Exists(exists)) => if exists {
            ends(Ok(()))
        } else {
            CheckoutTurn {
                stage: CheckoutStage::CreatingDirectory,
                request: Request::CreateDirAll { path: directory },
            }
        },
        (CheckoutStage::CreatingDirectory, Event::Done(done)) => match done {
            Ok(_) => CheckoutTurn {
                stage: CheckoutStage::Initializing,
                request: Request::Run(git_init_of(directory)),
            },
            Err(message) => ends(
                Err(
                    in_context(create_failed(directory), failure(ErrorKind::Filesystem, message@)),
                ),
            ),
        },
        (CheckoutStage::Initializing, Event::Ran(ran)) => match ran {
            Err(message) => ends(Err(failure(ErrorKind::MissingDependency, message@))),
            Ok(output) => if output.success {
                CheckoutTurn {
                    stage: CheckoutStage::AddingRemote,
                    request: Request::Run(git_remote_add_of(directory, checkout.url)),
                }
            } else {
                ends(Err(failure(ErrorKind::Subprocess, init_failed(directory))))
            },
        },
        (CheckoutStage::AddingRemote, Event::Ran(ran)) => match ran {
            Err(message) => ends(
                Err(
                    in_context(
                        "failed to execute `git remote add`"@,
                        failure(ErrorKind::MissingDependency, message@),
                    ),
                ),
            ),
            Ok(output) => if output.success {
                CheckoutTurn {
                    stage: CheckoutStage::Fetching,
                    request: Request::Run(git_fetch_of(directory, checkout.rev)),
                }
            } else {
                ends(Err(failure(ErrorKind::Subprocess, remote_failed(directory, checkout.url))))
            },
        },
        (CheckoutStage::Fetching, Event::Ran(ran)) => match ran {
            Err(message) => ends(
                Err(
                    in_context(
                        "failed to execute `git fetch`"@,
                        failure(ErrorKind::MissingDependency, message@),
                    ),
                ),
            ),
            Ok(output) => CheckoutTurn {
                stage: CheckoutStage::CheckingOut { fetched: output.success },
                request: Request::Run(git_checkout_of(directory, checkout.rev)),
            },
        },
        (CheckoutStage::CheckingOut { fetched }, Event::Ran(ran)) => match ran {
            Err(message) => ends(
                Err(
                    in_context(
                        "failed to execute `git checkout`"@,
                        failure(ErrorKind::MissingDependency, message@),
                    ),
                ),
            ),
            Ok(output) => if output.success {
                ends(Ok(()))
            } else if !fetched {
                ends(Err(failure(ErrorKind::Subprocess, fetch_failed(directory, checkout.rev))))
            } else {
                ends(
                    Err(
                        failure(
                            ErrorKind::Subprocess,
                            checkout_failed(directory, checkout.rev, output.stderr@),
                        ),
                    ),
                )
            },
        },
        _ => ends(Err(unexpected())),
    }
}

impl Checkout {
    /// A checkout that has not begun.
    pub fn new(directory: String, url: String, rev: String) -> (checkout: Checkout)
        ensures
            checkout@ == (CheckoutModel {
                directory: directory@,
                url: url@,
                rev: rev@,
                stage: CheckoutStage::Idle,
            }),
    {
        Checkout { directory, url, rev, stage: CheckoutStage::Idle }
    }

    /// Takes the answer to the last request and hands back the next one.
    /// The first answer is `Event::Start`; after `Action::Finish` the
    /// checkout is over.
    pub fn step(&mut self, event: Event) -> (action: Action)
        ensures
            action@ == checkout_turn(old(self)@, event).request,
            final(self)@ == (CheckoutModel {
                stage: checkout_turn(old(self)@, event).stage,
                ..old(self)@
            }),
    {
        let stage = self.stage;
        self.stage = CheckoutStage::Finished;
        match (stage, event) {
            (CheckoutStage::Idle, Event::Start) => {
                self.stage = CheckoutStage::CheckingDirectory;
                Action::PathExists { path: self.directory.clone() }
            },
            (CheckoutStage::CheckingDirectory, Event::Exists(exists)) => {
                if exists {
                    Action::Finish(Ok(()))
                } else {
                    self.stage = CheckoutStage::CreatingDirectory;
                    Action::CreateDirAll { path: self.directory.clone() }
                }
            },
            (CheckoutStage::CreatingDirectory, Event::Done(done)) => match done {
                Ok(_) => {
                    self.stage = CheckoutStage::Initializing;
                    Action::Run(git_init(self.directory.as_str()))
                },
                Err(message) => {
                    let mut context = String::from_str("failed to create grammar directory ");
                    context.append(self.directory.as_str());
                    fail_in(ErrorKind::Filesystem, context.as_str(), message)
                },
            },
            (CheckoutStage::Initializing, Event::Ran(ran)) => match ran {
                Err(message) => fail(ErrorKind::MissingDependency, message),
                Ok(output) => {
                    if output.success {
                        self.stage = CheckoutStage::AddingRemote;
                        Action::Run(git_remote_add(self.directory.as_str(), self.url.as_str()))
                    } else {
                        let mut cause = String::from_str("failed to run `git init` in directory '");
                        cause.append(self.directory.as_str());
                        cause.append("'");
                        fail(ErrorKind::Subprocess, cause)
                    }
                },
            },
            (CheckoutStage::AddingRemote, Event::Ran(ran)) => match ran {
                Err(message) => fail_in(
                    ErrorKind::MissingDependency,
                    "failed to execute `git remote add`",
                    message,
                ),
                Ok(output) => {
                    if output.success {
                        self.stage = CheckoutStage::Fetching;
                        Action::Run(git_fetch(self.directory.as_str(), self.rev.as_str()))
                    } else {
                        let mut cause = String::from_str("failed to add remote ");
                        cause.append(self.url.as_str());
                        cause.append(" for git repository ");
                        cause.append(join(self.directory.as_str(), ".git").as_str());
                        fail(ErrorKind::Subprocess, cause)
                    }
                },
            },
            (CheckoutStage::Fetching, Event::Ran(ran)) => match ran {
                Err(message) => fail_in(
                    ErrorKind::MissingDependency,
                    "failed to execute `git fetch`",
                    message,
                ),
                Ok(output) => {
                    self.stage = CheckoutStage::CheckingOut { fetched: output.success };
                    Action::Run(git_checkout(self.directory.as_str(), self.rev.as_str()))
                },
            },
            (CheckoutStage::CheckingOut { fetched }, Event::Ran(ran)) => match ran {
                Err(message) => fail_in(
                    ErrorKind::MissingDependency,
                    "failed to execute `git checkout`",
                    message,
                ),
                Ok(output) => {
                    if output.success {
                        Action::Finish(Ok(()))
                    } else if !fetched {
                        let mut cause = String::from_str("failed to fetch revision ");
                        cause.append(self.rev.as_str());
                        cause.append(" in directory '");
                        cause.append(self.directory.as_str());
                        cause.append("'");
                        fail(ErrorKind::Subprocess, cause)
                    } else {
                        let mut cause = String::from_str("failed to checkout revision ");
                        cause.append(self.rev.as_str());
                        cause.append(" in directory '");
                        cause.append(self.directory.as_str());
                        cause.append("': ");
                        cause.append(output.stderr.as_str());
                        fail(ErrorKind::Subprocess, cause)
                    }
                },
            },
            _ => reject(),
        }
    }
}

/// A directory that exists is taken as the checkout, whatever the URL and
/// the revision: the checkout asks whether the directory exists, and on the
/// answer that it does, ends with success. It asks for nothing else, so a
/// checkout that follows one into the same directory runs no tool.
pub proof fn lemma_existing_directory_is_taken(checkout: CheckoutModel)
    requires
        checkout.stage == CheckoutStage::Idle,
    ensures
        checkout_turn(checkout, Event::Start) == (CheckoutTurn {
            stage: CheckoutStage::CheckingDirectory,
            request: Request::PathExists { path: checkout.directory },
        }),
        checkout_turn(
            CheckoutModel { stage: CheckoutStage::CheckingDirectory, ..checkout },
            Event::Exists(true),
        ) == ends(Ok(())),
{
}

/// A checkout that is over stays over: whatever it is told, it asks for
/// nothing.
pub proof fn lemma_finished_checkout_asks_nothing(checkout: CheckoutModel, event: Event)
    requires
        checkout.stage == CheckoutStage::Finished,
    ensures
        checkout_turn(checkout, event) == ends(Err(unexpected())),
{
}

/// Only a checkout that asked for it ends with success: either the
/// directory was there, or `git checkout` reported success.
pub proof fn lemma_checkout_succeeds_only_two_ways(checkout: CheckoutModel, event: Event)
    requires
        checkout_turn(checkout, event).request == Request::Finish(Ok(())),
    ensures
        (checkout.stage == CheckoutStage::CheckingDirectory && event == Event::Exists(true)) || (
        checkout.stage is CheckingOut && event is Ran && event->Ran_0 is Ok
            && event->Ran_0->Ok_0.success),
{
}

/// The events that a checkout waits for at a stage.
pub open spec fn checkout_awaits(stage: CheckoutStage, event: Event) -> bool {
    match stage {
        CheckoutStage::Idle => event is Start,
        CheckoutStage::CheckingDirectory => event is Exists,
        CheckoutStage::CreatingDirectory => event is Done,
        CheckoutStage::Initializing => event is Ran,
        CheckoutStage::AddingRemote => event is Ran,
        CheckoutStage::Fetching => event is Ran,
        CheckoutStage::CheckingOut { .. } => event is Ran,
        CheckoutStage::Finished => false,
    }
}

/// A checkout never blames a driver that answers in kind: told what it
/// waits for, it does not end for an answer that does not fit, and unless it
/// ends, it waits for the answers to what it asks, and for those alone.
pub proof fn lemma_checkout_keeps_the_protocol(checkout: CheckoutModel, event: Event)
    requires
        checkout_awaits(checkout.stage, event),
    ensures
        !blames_the_driver(checkout_turn(checkout, event).request),
        checkout_turn(checkout, event).request is Finish <==> checkout_turn(
            checkout,
            event,
        ).stage == CheckoutStage::Finished,
        checkout_turn(checkout, event).stage != CheckoutStage::Idle,
        forall|next: Event|
            checkout_turn(checkout, event).request !is Finish ==> (#[trigger] answers(
                checkout_turn(checkout, event).request,
                next,
            ) <==> checkout_awaits(checkout_turn(checkout, event).stage, next)),
{
}

} // verus!
