//! The build of one grammar: its sources are fetched into their working
//! tree, and the C compiler makes one sandboxed module of them.

use vstd::prelude::*;
use crate::checkout::{
    checkout_awaits,
    checkout_turn,
    lemma_checkout_keeps_the_protocol,
    Checkout,
    CheckoutModel,
    CheckoutStage,
};
use crate::command::{clang, clang_of, grammar_dir, grammar_dir_of, scanner_file, scanner_of};
use crate::error::{ErrorKind, Failure};
use crate::manifest::{GrammarManifestEntry, GrammarSource};
use crate::protocol::{
    answers,
    blames_the_driver,
    fail,
    fail_in,
    failure,
    in_context,
    reject,
    unexpected,
    Action,
    Event,
    Request,
};

verus! {

/// How far the build of a grammar has come: what it waits for.
#[derive(Clone, Copy, Debug, PartialEq, Eq, Structural)]
pub enum GrammarStage {
    /// Nothing was asked yet.
    Idle,
    /// The path of the C compiler.
    FindingCompiler,
    /// The path of the sandbox's C library.
    ReadingSysroot,
    /// An answer for the checkout of the sources.
    Fetching,
    /// Whether the grammar has a scanner.
    ProbingScanner,
    /// The end of the compiler.
    Compiling,
    /// Nothing: the build is over.
    Finished,
}

/// The build of the grammar `name` of the extension in `extension_dir`.
#[derive(Clone, Debug, PartialEq, Eq)]
pub struct GrammarBuild {
    pub extension_dir: String,
    pub name: String,
    pub entry: GrammarManifestEntry,
    /// The path of the C compiler, once it is found.
    pub compiler: String,
    /// The path of the sandbox's C library, once it is known.
    pub sysroot: String,
    /// The checkout of the grammar's sources.
    pub checkout: Checkout,
    pub stage: GrammarStage,
}

/// The build of a grammar as a value of the model.
pub struct GrammarBuildModel {
    pub extension_dir: Seq<char>,
    pub name: Seq<char>,
    pub entry: GrammarSource,
    pub compiler: Seq<char>,
    pub sysroot: Seq<char>,
    pub checkout: CheckoutModel,
    pub stage: GrammarStage,
}

impl View for GrammarBuild {
    type V = GrammarBuildModel;

    open spec fn view(&self) -> GrammarBuildModel {
        GrammarBuildModel {
            extension_dir: self.extension_dir@,
            name: self.name@,
            entry: self.entry@,
            compiler: self.compiler@,
            sysroot: self.sysroot@,
            checkout: self.checkout@,
            stage: self.stage,
        }
    }
}

/// One step of the build of a grammar: the build after it, and what it
/// asks.
pub struct GrammarTurn {
    pub build: GrammarBuildModel,
    pub request: Request,
}

/// The build of a grammar before its first step: the sources go to the
/// grammar's working tree, from the repository and the revision that the
/// entry names.
pub open spec fn grammar_build_of(extension_dir: Seq<char>, name: Seq<char>, entry: GrammarSource)
    -> GrammarBuildModel {
    GrammarBuildModel {
        extension_dir,
        name,
        entry,
        compiler: Seq::empty(),
        sysroot: Seq::empty(),
        checkout: CheckoutModel {
            directory: grammar_dir_of(extension_dir, name),
            url: entry.repository,
            rev: entry.rev,
            stage: CheckoutStage::Idle,
        },
        stage: GrammarStage::Idle,
    }
}

/// The end of the build of a grammar.
pub open spec fn grammar_ends(build: GrammarBuildModel, result: Result<(), Failure>)
    -> GrammarTurn {
    GrammarTurn {
        build: GrammarBuildModel { stage: GrammarStage::Finished, ..build },
        request: Request::Finish(result),
    }
}

/// The message of a compiler that reported failure: it names the grammar
/// and ends in what the compiler wrote to its error stream.
pub open spec fn compile_failed(name: Seq<char>, stderr: Seq<char>) -> Seq<char> {
    "failed to compile "@ + name + " parser with clang: "@ + stderr
}

/// The message of a build on a machine where the sandbox's C library is
/// not configured.
pub open spec fn sysroot_missing() -> Seq<char> {
    "WASI_LIBC_PATH environment variable not set"@
}

/// What the build of a grammar does with the answer to its last request.
///
/// It finds the C compiler, then the sandbox's C library, and only then
/// touches the disk: the sources are checked out, the scanner is looked for,
/// and the compiler runs. What the compiler leaves is taken as it is.
pub open spec fn grammar_turn(build: GrammarBuildModel, event: Event) -> GrammarTurn {
    match (build.stage, event) {
        (GrammarStage::Idle, Event::Start) => GrammarTurn {
            build: GrammarBuildModel { stage: GrammarStage::FindingCompiler, ..build },
            request: Request::FindProgram { name: "clang"@ },
        },
        (GrammarStage::FindingCompiler, Event::Program(found)) => match found {
            Ok(path) => GrammarTurn {
                build: GrammarBuildModel {
                    compiler: path@,
                    stage: GrammarStage::ReadingSysroot,
                    ..build
                },
                request: Request::ReadVariable { name: "WASI_LIBC_PATH"@ },
            },
            Err(message) => grammar_ends(
                build,
                Err(failure(ErrorKind::MissingDependency, message@)),
            ),
        },
        (GrammarStage::ReadingSysroot, Event::Variable(value)) => match value {
            Some(path) => fetching(GrammarBuildModel { sysroot: path@, ..build }, Event::Start),
            None => grammar_ends(
                build,
                Err(failure(ErrorKind::MissingDependency, sysroot_missing())),
            ),
        },
        (GrammarStage::Fetching, event) => fetching(build, event),
        (GrammarStage::ProbingScanner, Event::Exists(has_scanner)) => GrammarTurn {
            build: GrammarBuildModel { stage: GrammarStage::Compiling, ..build },
            request: Request::Run(
                clang_of(
                    build.compiler,
                    build.sysroot,
                    build.extension_dir,
                    build.name,
                    build.entry.path,
                    has_scanner,
                ),
            ),
        },
        (GrammarStage::Compiling, Event::Ran(ran)) => match ran {
            Err(message) => grammar_ends(
                build,
                Err(
                    in_context(
                        "failed to run clang"@,
                        failure(ErrorKind::MissingDependency, message@),
                    ),
                ),
            ),
            Ok(output) => if output.success {
                grammar_ends(build, Ok(()))
            } else {
                grammar_ends(
                    build,
                    Err(failure(ErrorKind::Subprocess, compile_failed(build.name, output.stderr@))),
                )
            },
        },
        _ => grammar_ends(build, Err(unexpected())),
    }
}

/// A step of the checkout within the build of a grammar. While the checkout
/// goes on, the build asks what the checkout asks. A checkout that fails
/// ends the build; one that succeeds lets it look for the scanner.
pub open spec fn fetching(build: GrammarBuildModel, event: Event) -> GrammarTurn {
    let turn = checkout_turn(build.checkout, event);
    let moved = GrammarBuildModel {
        checkout: CheckoutModel { stage: turn.stage, ..build.checkout },
        ..build
    };
    match turn.request {
        Request::Finish(Ok(_)) => GrammarTurn {
            build: GrammarBuildModel { stage: GrammarStage::ProbingScanner, ..moved },
            request: Request::PathExists {
                path: scanner_of(build.extension_dir, build.name, build.entry.path),
            },
        },
        Request::Finish(Err(reason)) => grammar_ends(moved, Err(reason)),
        request => GrammarTurn {
            build: GrammarBuildModel { stage: GrammarStage::Fetching, ..moved },
            request,
        },
    }
}

impl GrammarBuild {
    /// The build of the grammar `name`, not yet begun.
    pub fn new(extension_dir: &str, name: &str, entry: &GrammarManifestEntry) -> (build:
        GrammarBuild)
        ensures
            build@ == grammar_build_of(extension_dir@, name@, entry@),
    {
        GrammarBuild {
            extension_dir: String::from_str(extension_dir),
            name: String::from_str(name),
            entry: entry.duplicate(),
            compiler: String::new(),
            sysroot: String::new(),
            checkout: Checkout::new(
                grammar_dir(extension_dir, name),
                entry.repository.clone(),
                entry.rev.clone(),
            ),
            stage: GrammarStage::Idle,
        }
    }

    /// Hands an answer on to the checkout.
    fn fetch(&mut self, event: Event) -> (action: Action)
        ensures
            final(self)@ == fetching(old(self)@, event).build,
            action@ == fetching(old(self)@, event).request,
    {
        let action = self.checkout.step(event);
        match action {
            Action::Finish(Ok(_)) => {
                self.stage = GrammarStage::ProbingScanner;
                Action::PathExists {
                    path: scanner_file(
                        self.extension_dir.as_str(),
                        self.name.as_str(),
                        &self.entry.path,
                    ),
                }
            },
            Action::Finish(Err(error)) => {
                self.stage = GrammarStage::Finished;
                Action::Finish(Err(error))
            },
            action => {
                self.stage = GrammarStage::Fetching;
                action
            },
        }
    }

    /// Takes the answer to the last request and hands back the next one.
    /// The first answer is `Event::Start`; after `Action::Finish` the build
    /// is over.
    pub fn step(&mut self, event: Event) -> (action: Action)
        ensures
            final(self)@ == grammar_turn(old(self)@, event).build,
            action@ == grammar_turn(old(self)@, event).request,
    {
        let stage = self.stage;
        match (stage, event) {
            (GrammarStage::Idle, Event::Start) => {
                self.stage = GrammarStage::FindingCompiler;
                Action::FindProgram { name: String::from_str("clang") }
            },
            (GrammarStage::FindingCompiler, Event::Program(found)) => match found {
                Ok(path) => {
                    self.compiler = path;
                    self.stage = GrammarStage::ReadingSysroot;
                    Action::ReadVariable { name: String::from_str("WASI_LIBC_PATH") }
                },
                Err(message) => {
                    self.stage = GrammarStage::Finished;
                    fail(ErrorKind::MissingDependency, message)
                },
            },
            (GrammarStage::ReadingSysroot, Event::Variable(value)) => match value {
                Some(path) => {
                    self.sysroot = path;
                    self.fetch(Event::Start)
                },
                None => {
                    self.stage = GrammarStage::Finished;
                    fail(
                        ErrorKind::MissingDependency,
                        String::from_str("WASI_LIBC_PATH environment variable not set"),
                    )
                },
            },
            (GrammarStage::Fetching, event) => self.fetch(event),
            (GrammarStage::ProbingScanner, Event::Exists(has_scanner)) => {
                self.stage = GrammarStage::Compiling;
                Action::Run(
                    clang(
                        self.compiler.as_str(),
                        self.sysroot.as_str(),
                        self.extension_dir.as_str(),
                        self.name.as_str(),
                        &self.entry.path,
                        has_scanner,
                    ),
                )
            },
            (GrammarStage::Compiling, Event::Ran(ran)) => {
                self.stage = GrammarStage::Finished;
                match ran {
                    Err(message) => fail_in(
                        ErrorKind::MissingDependency,
                        "failed to run clang",
                        message,
                    ),
                    Ok(output) => {
                        if output.success {
                            Action::Finish(Ok(()))
                        } else {
                            let mut cause = String::from_str("failed to compile ");
                            cause.append(self.name.as_str());
                            cause.append(" parser with clang: ");
                            cause.append(output.stderr.as_str());
                            fail(ErrorKind::Subprocess, cause)
                        }
                    },
                }
            },
            _ => {
                self.stage = GrammarStage::Finished;
                reject()
            },
        }
    }
}

/// On a machine where the sandbox's C library is not configured, the build
/// of a grammar ends when it learns so, with a failure that names the
/// variable: nothing was fetched and no compiler was run.
pub proof fn lemma_missing_sysroot_ends_the_build(build: GrammarBuildModel)
    requires
        build.stage == GrammarStage::ReadingSysroot,
    ensures
        grammar_turn(build, Event::Variable(None)) == grammar_ends(
            build,
            Err(failure(ErrorKind::MissingDependency, sysroot_missing())),
        ),
{
}

/// The build of a grammar runs a tool only once the compiler and the
/// sandbox's C library are known: while it fetches, or when it has looked
/// for the scanner.
pub proof fn lemma_tools_run_late(build: GrammarBuildModel, event: Event)
    requires
        grammar_turn(build, event).request is Run,
    ensures
        build.stage == GrammarStage::Fetching || build.stage == GrammarStage::ProbingScanner,
{
}

/// The stages in which the build of a grammar runs a tool are reached only
/// through the answer that gives the sandbox's C library.
pub proof fn lemma_fetching_follows_the_sysroot(build: GrammarBuildModel, event: Event)
    requires
        build.stage != GrammarStage::Fetching,
        grammar_turn(build, event).build.stage == GrammarStage::Fetching,
    ensures
        build.stage == GrammarStage::ReadingSysroot,
        event is Variable,
        event->Variable_0 is Some,
{
}

/// The events that the build of a grammar waits for.
pub open spec fn grammar_awaits(build: GrammarBuildModel, event: Event) -> bool {
    match build.stage {
        GrammarStage::Idle => event is Start,
        GrammarStage::FindingCompiler => event is Program,
        GrammarStage::ReadingSysroot => event is Variable,
        GrammarStage::Fetching => checkout_awaits(build.checkout.stage, event),
        GrammarStage::ProbingScanner => event is Exists,
        GrammarStage::Compiling => event is Ran,
        GrammarStage::Finished => false,
    }
}

/// What holds of the build of a grammar from its first step to its last:
/// the checkout has not begun before the build fetches, and while the build
/// fetches the checkout is under way.
pub open spec fn grammar_is_orderly(build: GrammarBuildModel) -> bool {
    match build.stage {
        GrammarStage::Idle => build.checkout.stage == CheckoutStage::Idle,
        GrammarStage::FindingCompiler => build.checkout.stage == CheckoutStage::Idle,
        GrammarStage::ReadingSysroot => build.checkout.stage == CheckoutStage::Idle,
        GrammarStage::Fetching => build.checkout.stage != CheckoutStage::Idle
            && build.checkout.stage != CheckoutStage::Finished,
        _ => true,
    }
}

/// The build of a grammar never blames a driver that answers in kind: told
/// what it waits for, it stays orderly and does not end for an answer that
/// does not fit, and unless it ends, it waits for the answers to what it
/// asks, and for those alone.
pub proof fn lemma_grammar_keeps_the_protocol(build: GrammarBuildModel, event: Event)
    requires
        grammar_is_orderly(build),
        grammar_awaits(build, event),
    ensures
        grammar_is_orderly(grammar_turn(build, event).build),
        !blames_the_driver(grammar_turn(build, event).request),
        grammar_turn(build, event).request is Finish <==> grammar_turn(build, event).build.stage
            == GrammarStage::Finished,
        grammar_turn(build, event).build.stage != GrammarStage::Idle,
        forall|next: Event|
            grammar_turn(build, event).request !is Finish ==> (#[trigger] answers(
                grammar_turn(build, event).request,
                next,
            ) <==> grammar_awaits(grammar_turn(build, event).build, next)),
{
    if build.stage == GrammarStage::Fetching {
        lemma_checkout_keeps_the_protocol(build.checkout, event);
    } else if build.stage == GrammarStage::ReadingSysroot {
        lemma_checkout_keeps_the_protocol(build.checkout, Event::Start);
    }
}

/// The build of a grammar is orderly before its first step.
pub proof fn lemma_new_grammar_is_orderly(
    extension_dir: Seq<char>,
    name: Seq<char>,
    entry: GrammarSource,
)
    ensures
        grammar_is_orderly(grammar_build_of(extension_dir, name, entry)),
        grammar_awaits(grammar_build_of(extension_dir, name, entry), Event::Start),
{
}

} // verus!
