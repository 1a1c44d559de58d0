//! The build of one extension: the manifest is normalized against what is on
//! disk, the extension's own library is compiled where it has one, and each
//! grammar of the manifest is compiled, in the manifest's order. The first
//! failure ends the build.

use vstd::prelude::*;
use crate::error::{ErrorKind, Failure};
use crate::grammar::{
    grammar_awaits,
    grammar_build_of,
    grammar_is_orderly,
    grammar_turn,
    lemma_grammar_keeps_the_protocol,
    lemma_new_grammar_is_orderly,
    GrammarBuild,
    GrammarBuildModel,
    GrammarStage,
};
use crate::library::{
    lemma_library_keeps_the_protocol,
    library_awaits,
    library_build_of,
    library_turn,
    with_version,
    LibraryBuild,
    LibraryBuildModel,
    LibraryStage,
};
use crate::manifest::{ExtensionLibraryKind, ExtensionManifest, ManifestModel};
use crate::normalize::{lemma_normalization_fails_for_the_disk, normalized, populate_defaults};
use crate::protocol::{
    answers,
    blames_the_driver,
    fail,
    fail_in,
    failure,
    in_context,
    reject,
    unexpected,
    Action,
    Event,
    Request,
};
use crate::text::{is_absolute, is_absolute_path};

verus! {

/// How the extension's own library is compiled.
#[derive(Clone, Copy, Debug, PartialEq, Eq, Structural)]
pub struct CompileExtensionOptions {
    /// Compile with optimizations, under the release profile.
    pub release: bool,
}

/// Builds extensions, with one directory for what the builds share.
#[derive(Clone, Debug, PartialEq, Eq)]
pub struct ExtensionBuilder {
    cache_dir: String,
}

/// How far a build has come: what it waits for.
#[derive(Clone, Copy, Debug, PartialEq, Eq, Structural)]
pub enum BuildStage {
    /// Nothing was asked yet.
    Idle,
    /// What is on disk under the extension's root.
    Surveying,
    /// The creation of the shared directory.
    CreatingCacheDir,
    /// An answer for the build of the library.
    Library,
    /// An answer for the build of the grammar at `index`.
    Grammar { index: usize },
    /// Nothing: the build is over.
    Finished,
}

/// One build of one extension. It holds the manifest while it runs: what a
/// stage has written to it stays, also where a later stage fails.
#[derive(Clone, Debug, PartialEq, Eq)]
pub struct Build {
    pub extension_dir: String,
    pub cache_dir: String,
    pub manifest: ExtensionManifest,
    /// The build of the extension's own library.
    pub library: LibraryBuild,
    /// The build of the grammar that is being compiled, or was last.
    pub grammar: Option<GrammarBuild>,
    pub stage: BuildStage,
}

/// A build as a value of the model.
pub struct BuildModel {
    pub extension_dir: Seq<char>,
    pub cache_dir: Seq<char>,
    pub manifest: ManifestModel,
    pub library: LibraryBuildModel,
    pub grammar: Option<GrammarBuildModel>,
    pub stage: BuildStage,
}

/// One step of a build: the build after it, and what it asks.
pub struct BuildTurn {
    pub build: BuildModel,
    pub request: Request,
}

/// The build of a grammar, if there is one, as a value of the model.
pub open spec fn optional_grammar(grammar: Option<GrammarBuild>) -> Option<GrammarBuildModel> {
    match grammar {
        Some(build) => Some(build@),
        None => None,
    }
}

impl View for Build {
    type V = BuildModel;

    open spec fn view(&self) -> BuildModel {
        BuildModel {
            extension_dir: self.extension_dir@,
            cache_dir: self.cache_dir@,
            manifest: self.manifest@,
            library: self.library@,
            grammar: optional_grammar(self.grammar),
            stage: self.stage,
        }
    }
}

/// A build before its first step.
pub open spec fn build_of(
    cache_dir: Seq<char>,
    extension_dir: Seq<char>,
    manifest: ManifestModel,
    release: bool,
) -> BuildModel {
    BuildModel {
        extension_dir,
        cache_dir,
        manifest,
        library: library_build_of(extension_dir, release),
        grammar: None,
        stage: BuildStage::Idle,
    }
}

/// The end of a build.
pub open spec fn build_ends(build: BuildModel, result: Result<(), Failure>) -> BuildTurn {
    BuildTurn {
        build: BuildModel { stage: BuildStage::Finished, ..build },
        request: Request::Finish(result),
    }
}

/// The message of a build whose extension directory is no absolute path.
pub open spec fn relative_dir(extension_dir: Seq<char>) -> Seq<char> {
    "extension dir "@ + extension_dir + " is not an absolute path"@
}

/// The context of a failure in the build of the grammar `name`.
pub open spec fn grammar_context(name: Seq<char>) -> Seq<char> {
    "failed to compile grammar '"@ + name + "'"@
}

/// The context of a failure in the build of the library.
pub open spec fn library_context() -> Seq<char> {
    "failed to compile Rust extension"@
}

/// Goes on to the grammar at `index` of the manifest, or ends the build with
/// success where the manifest has no grammar there.
pub open spec fn enter_grammar(build: BuildModel, index: int) -> BuildTurn {
    if 0 <= index < build.manifest.grammars.len() && index <= usize::MAX {
        let named = build.manifest.grammars[index];
        let first = grammar_turn(
            grammar_build_of(build.extension_dir, named.0, named.1),
            Event::Start,
        );
        BuildTurn {
            build: BuildModel {
                grammar: Some(first.build),
                stage: BuildStage::Grammar { index: index as usize },
                ..build
            },
            request: first.request,
        }
    } else {
        build_ends(build, Ok(()))
    }
}

/// A step of the build of the library within a build. While it goes on, the
/// build asks what it asks. Its failure ends the build; after its success
/// the grammars follow.
pub open spec fn in_library(build: BuildModel, event: Event) -> BuildTurn {
    let turn = library_turn(build.library, build.manifest, event);
    let moved = BuildModel {
        library: turn.build,
        manifest: with_version(build.manifest, turn.version),
        ..build
    };
    match turn.request {
        Request::Finish(Ok(_)) => enter_grammar(moved, 0),
        Request::Finish(Err(reason)) => build_ends(
            moved,
            Err(in_context(library_context(), reason)),
        ),
        request => BuildTurn {
            build: BuildModel { stage: BuildStage::Library, ..moved },
            request,
        },
    }
}

/// A step of the build of the grammar at `index` within a build. While it
/// goes on, the build asks what it asks. Its failure ends the build, under
/// the grammar's name; after its success the next grammar follows.
pub open spec fn in_grammar(build: BuildModel, index: usize, event: Event) -> BuildTurn {
    match build.grammar {
        None => build_ends(build, Err(unexpected())),
        Some(grammar) => {
            let turn = grammar_turn(grammar, event);
            let moved = BuildModel { grammar: Some(turn.build), ..build };
            match turn.request {
                Request::Finish(Ok(_)) => enter_grammar(moved, index + 1),
                Request::Finish(Err(reason)) => build_ends(
                    moved,
                    Err(in_context(grammar_context(grammar.name), reason)),
                ),
                request => BuildTurn { build: moved, request },
            }
        },
    }
}

/// What a build does with the answer to its last request.
///
/// An extension directory that is no absolute path ends the build before
/// anything is asked. Else the manifest is normalized against what is on
/// disk, the shared directory is created, the library is built where the
/// manifest, now normalized, says that there is one, and the grammars are
/// built one after the other.
pub open spec fn build_turn(build: BuildModel, event: Event) -> BuildTurn {
    match (build.stage, event) {
        (BuildStage::Idle, Event::Start) => if is_absolute_path(build.extension_dir) {
            BuildTurn {
                build: BuildModel { stage: BuildStage::Surveying, ..build },
                request: Request::Survey { root: build.extension_dir },
            }
        } else {
            build_ends(
                build,
                Err(failure(ErrorKind::Precondition, relative_dir(build.extension_dir))),
            )
        },
        (BuildStage::Surveying, Event::Layout(layout)) => {
            let after = normalized(build.manifest, build.extension_dir, layout);
            let moved = BuildModel { manifest: after.manifest, ..build };
            match after.failure {
                Some(reason) => build_ends(moved, Err(reason)),
                None => BuildTurn {
                    build: BuildModel { stage: BuildStage::CreatingCacheDir, ..moved },
                    request: Request::CreateDirAll { path: build.cache_dir },
                },
            }
        },
        (BuildStage::CreatingCacheDir, Event::Done(done)) => match done {
            Err(message) => build_ends(
                build,
                Err(
                    in_context(
                        "failed to create cache dir"@,
                        failure(ErrorKind::Filesystem, message@),
                    ),
                ),
            ),
            Ok(_) => if build.manifest.lib.kind == Some(ExtensionLibraryKind::Rust) {
                in_library(build, Event::Start)
            } else {
                enter_grammar(build, 0)
            },
        },
        (BuildStage::Library, event) => in_library(build, event),
        (BuildStage::Grammar { index }, event) => in_grammar(build, index, event),
        _ => build_ends(build, Err(unexpected())),
    }
}

impl ExtensionBuilder {
    /// The directory that the builds of this builder share.
    pub closed spec fn shared_dir(&self) -> Seq<char> {
        self.cache_dir@
    }

    /// A builder whose builds share `cache_dir`.
    pub fn new(cache_dir: String) -> (builder: ExtensionBuilder)
        ensures
            builder.shared_dir() == cache_dir@,
    {
        ExtensionBuilder { cache_dir }
    }

    /// The directory that the builds of this builder share.
    pub fn cache_dir(&self) -> (path: &String)
        ensures
            path@ == self.shared_dir(),
    {
        &self.cache_dir
    }

    /// Sets up the build of the extension in `extension_dir` with its
    /// manifest. The build has not begun: its driver hands it
    /// `Event::Start`, does what it asks, and hands it the answer, until it
    /// asks to finish.
    pub fn compile_extension(
        &self,
        extension_dir: &str,
        manifest: ExtensionManifest,
        options: CompileExtensionOptions,
    ) -> (build: Build)
        ensures
            build@ == build_of(self.shared_dir(), extension_dir@, manifest@, options.release),
    {
        Build {
            extension_dir: String::from_str(extension_dir),
            cache_dir: self.cache_dir.clone(),
            manifest,
            library: LibraryBuild::new(extension_dir, options.release),
            grammar: None,
            stage: BuildStage::Idle,
        }
    }
}

impl Build {
    /// Tells whether the build is over.
    pub fn is_finished(&self) -> (finished: bool)
        ensures
            finished == (self@.stage == BuildStage::Finished),
    {
        match self.stage {
            BuildStage::Finished => true,
            _ => false,
        }
    }

    /// The manifest as the build has left it so far.
    pub fn manifest(&self) -> (manifest: &ExtensionManifest)
        ensures
            manifest@ == self@.manifest,
    {
        &self.manifest
    }

    /// Gives the manifest back.
    pub fn into_manifest(self) -> (manifest: ExtensionManifest)
        ensures
            manifest@ == self@.manifest,
    {
        self.manifest
    }

    /// Goes on to the grammar at `index`.
    fn begin_grammar(&mut self, index: usize) -> (action: Action)
        ensures
            final(self)@ == enter_grammar(old(self)@, index as int).build,
            action@ == enter_grammar(old(self)@, index as int).request,
    {
        if index < self.manifest.grammars.len() {
            let mut grammar = GrammarBuild::new(
                self.extension_dir.as_str(),
                self.manifest.grammars.name_at(index).as_str(),
                self.manifest.grammars.entry_at(index),
            );
            let action = grammar.step(Event::Start);
            self.grammar = Some(grammar);
            self.stage = BuildStage::Grammar { index };
            action
        } else {
            self.stage = BuildStage::Finished;
            Action::Finish(Ok(()))
        }
    }

    /// Hands an answer on to the build of the library.
    fn run_library(&mut self, event: Event) -> (action: Action)
        ensures
            final(self)@ == in_library(old(self)@, event).build,
            action@ == in_library(old(self)@, event).request,
    {
        let action = self.library.step(&mut self.manifest, event);
        match action {
            Action::Finish(Ok(_)) => self.begin_grammar(0),
            Action::Finish(Err(error)) => {
                self.stage = BuildStage::Finished;
                Action::Finish(
                    Err(error.context(String::from_str("failed to compile Rust extension"))),
                )
            },
            action => {
                self.stage = BuildStage::Library;
                action
            },
        }
    }

    /// Hands an answer on to the build of the grammar at `index`.
    fn run_grammar(&mut self, index: usize, event: Event) -> (action: Action)
        ensures
            final(self)@ == in_grammar(old(self)@, index, event).build,
            action@ == in_grammar(old(self)@, index, event).request,
    {
        let mut grammar = match self.grammar.take() {
            Some(grammar) => grammar,
            None => {
                self.stage = BuildStage::Finished;
                return reject();
            },
        };
        let action = grammar.step(event);
        let mut context = String::from_str("failed to compile grammar '");
        context.append(grammar.name.as_str());
        context.append("'");
        self.grammar = Some(grammar);
        match action {
            Action::Finish(Ok(_)) => {
                if index < self.manifest.grammars.len() {
                    self.begin_grammar(index + 1)
                } else {
                    self.stage = BuildStage::Finished;
                    Action::Finish(Ok(()))
                }
            },
            Action::Finish(Err(error)) => {
                self.stage = BuildStage::Finished;
                Action::Finish(Err(error.context(context)))
            },
            action => action,
        }
    }

    /// Takes the answer to the last request and hands back the next one.
    /// The first answer is `Event::Start`; after `Action::Finish` the build
    /// is over.
    pub fn step(&mut self, event: Event) -> (action: Action)
        ensures
            final(self)@ == build_turn(old(self)@, event).build,
            action@ == build_turn(old(self)@, event).request,
    {
        let stage = self.stage;
        match (stage, event) {
            (BuildStage::Idle, Event::Start) => {
                if is_absolute(self.extension_dir.as_str()) {
                    self.stage = BuildStage::Surveying;
                    Action::Survey { root: self.extension_dir.clone() }
                } else {
                    self.stage = BuildStage::Finished;
                    let mut cause = String::from_str("extension dir ");
                    cause.append(self.extension_dir.as_str());
                    cause.append(" is not an absolute path");
                    fail(ErrorKind::Precondition, cause)
                }
            },
            (BuildStage::Surveying, Event::Layout(layout)) => {
                match populate_defaults(&mut self.manifest, self.extension_dir.as_str(), &layout) {
                    Err(error) => {
                        self.stage = BuildStage::Finished;
                        Action::Finish(Err(error))
                    },
                    Ok(_) => {
                        self.stage = BuildStage::CreatingCacheDir;
                        Action::CreateDirAll { path: self.cache_dir.clone() }
                    },
                }
            },
            (BuildStage::CreatingCacheDir, Event::Done(done)) => match done {
                Err(message) => {
                    self.stage = BuildStage::Finished;
                    fail_in(ErrorKind::Filesystem, "failed to create cache dir", message)
                },
                Ok(_) => {
                    let has_library = match self.manifest.lib.kind {
                        Some(ExtensionLibraryKind::Rust) => true,
                        None => false,
                    };
                    if has_library {
                        assert(old(self)@.manifest.lib.kind == Some(ExtensionLibraryKind::Rust));
                        assert(build_turn(old(self)@, event) == in_library(
                            old(self)@,
                            Event::Start,
                        ));
                        self.run_library(Event::Start)
                    } else {
                        self.begin_grammar(0)
                    }
                },
            },
            (BuildStage::Library, event) => self.run_library(event),
            (BuildStage::Grammar { index }, event) => self.run_grammar(index, event),
            _ => {
                self.stage = BuildStage::Finished;
                reject()
            },
        }
    }
}

/// A manifest whose library, where it is a Rust library, has its version
/// recorded.
pub open spec fn recorded(manifest: ManifestModel) -> bool {
    manifest.lib.kind == Some(ExtensionLibraryKind::Rust) ==> manifest.lib.version is Some
}

/// What holds of a build from its first step to its last: once the library
/// waits to be published its version is recorded, and while grammars are
/// built the version of a Rust library is recorded.
pub open spec fn consistent(build: BuildModel) -> bool {
    &&& build.stage == BuildStage::Library && build.library.stage == LibraryStage::Writing
        ==> build.manifest.lib.version is Some
    &&& build.stage is Grammar ==> recorded(build.manifest)
}

/// A build that has not begun is consistent.
pub proof fn lemma_new_build_is_consistent(
    cache_dir: Seq<char>,
    extension_dir: Seq<char>,
    manifest: ManifestModel,
    release: bool,
)
    ensures
        consistent(build_of(cache_dir, extension_dir, manifest, release)),
{
}

/// Every step keeps a build consistent, and a build that ends with success
/// leaves a manifest whose library, where it is a Rust library, has its
/// version recorded.
pub proof fn lemma_success_records_the_version(build: BuildModel, event: Event)
    requires
        consistent(build),
    ensures
        consistent(build_turn(build, event).build),
        build_turn(build, event).request == Request::Finish(Ok(())) ==> recorded(
            build_turn(build, event).build.manifest,
        ),
{
}

/// Once the manifest is normalized, a build writes nothing to it but the
/// version of the library: the grammars, among the rest, stay as they are.
pub proof fn lemma_only_the_version_changes(build: BuildModel, event: Event)
    requires
        build.stage != BuildStage::Surveying,
    ensures
        build_turn(build, event).build.manifest == with_version(
            build.manifest,
            build_turn(build, event).build.manifest.lib.version,
        ),
        build_turn(build, event).build.manifest.grammars == build.manifest.grammars,
{
}

/// A build of an extension directory that is no absolute path ends at its
/// first step: nothing is asked of the driver, and the manifest stays as it
/// was.
pub proof fn lemma_relative_dir_ends_the_build(
    cache_dir: Seq<char>,
    extension_dir: Seq<char>,
    manifest: ManifestModel,
    release: bool,
)
    requires
        !is_absolute_path(extension_dir),
    ensures
        build_turn(build_of(cache_dir, extension_dir, manifest, release), Event::Start)
            == build_ends(
            build_of(cache_dir, extension_dir, manifest, release),
            Err(failure(ErrorKind::Precondition, relative_dir(extension_dir))),
        ),
{
}

/// A build that is over stays over: whatever it is told, it asks for
/// nothing and changes nothing.
pub proof fn lemma_finished_build_asks_nothing(build: BuildModel, event: Event)
    requires
        build.stage == BuildStage::Finished,
    ensures
        build_turn(build, event) == build_ends(build, Err(unexpected())),
{
}

/// A build after some answers, and what it asked on each.
pub struct Run {
    pub build: BuildModel,
    pub requests: Seq<Request>,
}

/// A build that is handed the events one after the other.
pub open spec fn run(build: BuildModel, events: Seq<Event>) -> Run
    decreases events.len(),
{
    if events.len() == 0 {
        Run { build, requests: Seq::empty() }
    } else {
        let before = run(build, events.drop_last());
        let turn = build_turn(before.build, events.last());
        Run { build: turn.build, requests: before.requests.push(turn.request) }
    }
}

/// A consistent build stays consistent, whatever it is told.
pub proof fn lemma_run_stays_consistent(build: BuildModel, events: Seq<Event>)
    requires
        consistent(build),
    ensures
        consistent(run(build, events).build),
        run(build, events).requests.len() == events.len(),
    decreases events.len(),
{
    if events.len() > 0 {
        lemma_run_stays_consistent(build, events.drop_last());
        lemma_success_records_the_version(run(build, events.drop_last()).build, events.last());
    }
}

/// Whatever a driver answers, a build that ends with success has recorded
/// the version of the extension's library, where the manifest then says that
/// it is a Rust library.
pub proof fn lemma_successful_build_has_its_version(
    cache_dir: Seq<char>,
    extension_dir: Seq<char>,
    manifest: ManifestModel,
    release: bool,
    events: Seq<Event>,
)
    requires
        events.len() > 0,
        run(build_of(cache_dir, extension_dir, manifest, release), events).requests.last()
            == Request::Finish(Ok(())),
    ensures
        recorded(run(build_of(cache_dir, extension_dir, manifest, release), events).build.manifest),
{
    let start = build_of(cache_dir, extension_dir, manifest, release);
    lemma_run_stays_consistent(start, events.drop_last());
    lemma_success_records_the_version(run(start, events.drop_last()).build, events.last());
}

/// Whatever a driver answers, a build leaves the grammars as the
/// normalization left them: compiling a grammar changes no entry. The
/// answers here are those after the one that brought what is on disk.
pub proof fn lemma_run_keeps_the_grammars(build: BuildModel, events: Seq<Event>)
    requires
        build.stage != BuildStage::Idle,
        build.stage != BuildStage::Surveying,
    ensures
        run(build, events).build.manifest.grammars == build.manifest.grammars,
        run(build, events).build.stage != BuildStage::Idle,
        run(build, events).build.stage != BuildStage::Surveying,
    decreases events.len(),
{
    if events.len() > 0 {
        lemma_run_keeps_the_grammars(build, events.drop_last());
        lemma_only_the_version_changes(run(build, events.drop_last()).build, events.last());
    }
}

/// The events that a build waits for.
pub open spec fn build_awaits(build: BuildModel, event: Event) -> bool {
    match build.stage {
        BuildStage::Idle => event is Start,
        BuildStage::Surveying => event is Layout,
        BuildStage::CreatingCacheDir => event is Done,
        BuildStage::Library => library_awaits(build.library.stage, event),
        BuildStage::Grammar { .. } => build.grammar matches Some(grammar) && grammar_awaits(
            grammar,
            event,
        ),
        BuildStage::Finished => false,
    }
}

/// What holds of a build from its first step to its last: the library's
/// build has not begun before its turn and is under way in its turn, and in
/// the turn of a grammar that grammar's build is under way and orderly.
pub open spec fn orderly(build: BuildModel) -> bool {
    match build.stage {
        BuildStage::Idle => build.library.stage == LibraryStage::Idle,
        BuildStage::Surveying => build.library.stage == LibraryStage::Idle,
        BuildStage::CreatingCacheDir => build.library.stage == LibraryStage::Idle,
        BuildStage::Library => build.library.stage != LibraryStage::Idle && build.library.stage
            != LibraryStage::Finished,
        BuildStage::Grammar { .. } => build.grammar matches Some(grammar) && grammar_is_orderly(
            grammar,
        ) && grammar.stage != GrammarStage::Idle && grammar.stage != GrammarStage::Finished,
        BuildStage::Finished => true,
    }
}

/// A build that has not begun is orderly and waits to be started.
pub proof fn lemma_new_build_is_orderly(
    cache_dir: Seq<char>,
    extension_dir: Seq<char>,
    manifest: ManifestModel,
    release: bool,
)
    ensures
        orderly(build_of(cache_dir, extension_dir, manifest, release)),
        build_awaits(build_of(cache_dir, extension_dir, manifest, release), Event::Start),
{
}

/// A build never blames a driver that answers in kind: told what it waits
/// for, it stays orderly and does not end for an answer that does not fit,
/// and unless it ends, it waits for the answers to what it asks, and for
/// those alone.
pub proof fn lemma_build_keeps_the_protocol(build: BuildModel, event: Event)
    requires
        orderly(build),
        build_awaits(build, event),
    ensures
        orderly(build_turn(build, event).build),
        !blames_the_driver(build_turn(build, event).request),
        build_turn(build, event).request is Finish <==> build_turn(build, event).build.stage
            == BuildStage::Finished,
        forall|next: Event|
            build_turn(build, event).request !is Finish ==> (#[trigger] answers(
                build_turn(build, event).request,
                next,
            ) <==> build_awaits(build_turn(build, event).build, next)),
{
    match build.stage {
        BuildStage::Surveying => {
            if let Event::Layout(layout) = event {
                lemma_normalization_fails_for_the_disk(
                    build.manifest,
                    build.extension_dir,
                    layout,
                );
            }
        },
        BuildStage::CreatingCacheDir => {
            if event matches Event::Done(Ok(_)) {
                if build.manifest.lib.kind == Some(ExtensionLibraryKind::Rust) {
                    lemma_library_keeps_the_protocol(build.library, build.manifest, Event::Start);
                } else {
                    lemma_grammar_follows(build, 0);
                }
            }
        },
        BuildStage::Library => {
            lemma_library_keeps_the_protocol(build.library, build.manifest, event);
            let turn = library_turn(build.library, build.manifest, event);
            let moved = BuildModel {
                library: turn.build,
                manifest: with_version(build.manifest, turn.version),
                ..build
            };
            lemma_grammar_follows(moved, 0);
        },
        BuildStage::Grammar { index } => {
            let grammar = build.grammar->Some_0;
            lemma_grammar_keeps_the_protocol(grammar, event);
            let turn = grammar_turn(grammar, event);
            lemma_grammar_follows(BuildModel { grammar: Some(turn.build), ..build }, index + 1);
        },
        _ => {},
    }
}

/// Where a build goes on to a grammar, that grammar's build is under way
/// and orderly, and the build waits for the answers to what it asks.
proof fn lemma_grammar_follows(build: BuildModel, index: int)
    ensures
        orderly(enter_grammar(build, index).build),
        !blames_the_driver(enter_grammar(build, index).request),
        enter_grammar(build, index).request is Finish <==> enter_grammar(build, index).build.stage
            == BuildStage::Finished,
        forall|next: Event|
            enter_grammar(build, index).request !is Finish ==> (#[trigger] answers(
                enter_grammar(build, index).request,
                next,
            ) <==> build_awaits(enter_grammar(build, index).build, next)),
{
    if 0 <= index < build.manifest.grammars.len() && index <= usize::MAX {
        let named = build.manifest.grammars[index];
        lemma_new_grammar_is_orderly(build.extension_dir, named.0, named.1);
        lemma_grammar_keeps_the_protocol(
            grammar_build_of(build.extension_dir, named.0, named.1),
            Event::Start,
        );
    }
}

/// The driver answers in kind: it starts the build, and then hands it, each
/// time, an answer to the request before.
pub open spec fn answered_in_kind(build: BuildModel, events: Seq<Event>) -> bool
    decreases events.len(),
{
    if events.len() == 0 {
        true
    } else if events.len() == 1 {
        events[0] is Start
    } else {
        &&& answered_in_kind(build, events.drop_last())
        &&& answers(run(build, events.drop_last()).requests.last(), events.last())
    }
}

/// A build that is started and answered in kind never ends for an answer
/// that does not fit.
pub proof fn lemma_driver_in_kind_is_never_blamed(
    cache_dir: Seq<char>,
    extension_dir: Seq<char>,
    manifest: ManifestModel,
    release: bool,
    events: Seq<Event>,
)
    requires
        answered_in_kind(build_of(cache_dir, extension_dir, manifest, release), events),
    ensures
        forall|i: int|
            0 <= i < events.len() ==> !blames_the_driver(
                #[trigger] run(
                    build_of(cache_dir, extension_dir, manifest, release),
                    events,
                ).requests[i],
            ),
{
    lemma_run_in_kind(build_of(cache_dir, extension_dir, manifest, release), events);
}

/// A run that starts an orderly, idle build and answers it in kind keeps it
/// orderly, blames the driver at no step, and leaves the build waiting for
/// the answers to its last request.
proof fn lemma_run_in_kind(build: BuildModel, events: Seq<Event>)
    requires
        orderly(build),
        build.stage == BuildStage::Idle,
        answered_in_kind(build, events),
    ensures
        run(build, events).requests.len() == events.len(),
        orderly(run(build, events).build),
        forall|i: int|
            0 <= i < events.len() ==> !blames_the_driver(#[trigger] run(build, events).requests[i]),
        events.len() > 0 ==> forall|next: Event|
            (#[trigger] answers(run(build, events).requests.last(), next)) ==> build_awaits(
                run(build, events).build,
                next,
            ),
    decreases events.len(),
{
    if events.len() == 1 {
        assert(events.drop_last().len() == 0);
        assert(events.last() == events[0]);
        lemma_build_keeps_the_protocol(build, events[0]);
    } else if events.len() > 1 {
        let before = run(build, events.drop_last());
        lemma_run_in_kind(build, events.drop_last());
        assert(build_awaits(before.build, events.last()));
        lemma_build_keeps_the_protocol(before.build, events.last());
        assert forall|i: int| 0 <= i < events.len() implies !blames_the_driver(
            #[trigger] run(build, events).requests[i],
        ) by {
            if i < events.len() - 1 {
                assert(run(build, events).requests[i] == before.requests[i]);
            }
        }
    }
}

} // verus!
