//! The build of the extension's own library: the compiler makes one
//! sandboxed component of the project, the version of the extension
//! interface that it was built against is read out of it and recorded in
//! the manifest, and the component is published at the extension's root.

use vstd::prelude::*;
use crate::command::{
    cargo_build,
    cargo_build_of,
    component_path,
    component_path_of,
    extension_wasm,
    extension_wasm_of,
};
use crate::config::{package_name_of, parsed, read_package_name};
use crate::error::{ErrorKind, Failure};
use crate::layout::project_file;
use crate::manifest::{ExtensionManifest, LibManifestEntry, ManifestModel, SemanticVersion};
use crate::protocol::{
    answers,
    blames_the_driver,
    fail,
    fail_in,
    failure,
    in_context,
    reject,
    unexpected,
    Action,
    Event,
    Request,
};
use crate::text::join_path;

verus! {

/// How far the build of the library has come: what it waits for.
#[derive(Clone, Copy, Debug, PartialEq, Eq, Structural)]
pub enum LibraryStage {
    /// Nothing was asked yet.
    Idle,
    /// The text of the project file.
    ReadingProject,
    /// The end of the compiler.
    Compiling,
    /// The bytes of the compiled component.
    ReadingComponent,
    /// The version of the extension interface in the component.
    ReadingVersion,
    /// The writing of the published component.
    Writing,
    /// Nothing: the build is over.
    Finished,
}

/// The build of the library of the extension in `extension_dir`.
#[derive(Clone, Debug, PartialEq, Eq)]
pub struct LibraryBuild {
    pub extension_dir: String,
    /// Whether to compile under the release profile.
    pub release: bool,
    /// The name of the package, once the project file was read.
    pub package: String,
    /// The compiled component, from when it was read to when it is
    /// published.
    pub component: Vec<u8>,
    pub stage: LibraryStage,
}

/// The build of a library as a value of the model.
pub struct LibraryBuildModel {
    pub extension_dir: Seq<char>,
    pub release: bool,
    pub package: Seq<char>,
    pub component: Seq<u8>,
    pub stage: LibraryStage,
}

impl View for LibraryBuild {
    type V = LibraryBuildModel;

    open spec fn view(&self) -> LibraryBuildModel {
        LibraryBuildModel {
            extension_dir: self.extension_dir@,
            release: self.release,
            package: self.package@,
            component: self.component@,
            stage: self.stage,
        }
    }
}

/// One step of the build of a library: the build after it, the version
/// that the manifest holds after it, and what it asks.
pub struct LibraryTurn {
    pub build: LibraryBuildModel,
    pub version: Option<SemanticVersion>,
    pub request: Request,
}

/// The build of a library before its first step.
pub open spec fn library_build_of(extension_dir: Seq<char>, release: bool) -> LibraryBuildModel {
    LibraryBuildModel {
        extension_dir,
        release,
        package: Seq::empty(),
        component: Seq::empty(),
        stage: LibraryStage::Idle,
    }
}

/// The end of the build of a library, which leaves the manifest's version as
/// it is.
pub open spec fn library_ends(
    build: LibraryBuildModel,
    manifest: ManifestModel,
    result: Result<(), Failure>,
) -> LibraryTurn {
    LibraryTurn {
        build: LibraryBuildModel { stage: LibraryStage::Finished, ..build },
        version: manifest.lib.version,
        request: Request::Finish(result),
    }
}

/// The message of a compiler that reported failure: it ends in what the
/// compiler wrote to its error stream.
pub open spec fn build_failed(stderr: Seq<char>) -> Seq<char> {
    "failed to build extension "@ + stderr
}

/// The message of a component that could not be read: it names the path
/// where the compiler should have left it.
pub open spec fn component_unreadable(path: Seq<char>) -> Seq<char> {
    "failed to read component module `"@ + path + "`"@
}

/// The message of a component without a version of the extension
/// interface.
pub open spec fn version_missing() -> Seq<char> {
    "compiled wasm did not contain a valid zed extension api version"@
}

/// What the build of a library does with the answer to its last request.
///
/// The manifest is read for the extension's identifier, and its library's
/// version is set once, when the version was read out of the component:
/// so a build that fails before leaves the manifest as it was.
pub open spec fn library_turn(build: LibraryBuildModel, manifest: ManifestModel, event: Event)
    -> LibraryTurn {
    let dir = build.extension_dir;
    match (build.stage, event) {
        (LibraryStage::Idle, Event::Start) => LibraryTurn {
            build: LibraryBuildModel { stage: LibraryStage::ReadingProject, ..build },
            version: manifest.lib.version,
            request: Request::ReadText { path: join_path(dir, "Cargo.toml"@) },
        },
        (LibraryStage::ReadingProject, Event::Text(read)) => match read {
            Err(message) => library_ends(
                build,
                manifest,
                Err(failure(ErrorKind::Filesystem, message@)),
            ),
            Ok(text) => match package_name_of(parsed(text@)) {
                Err(reason) => library_ends(build, manifest, Err(reason)),
                Ok(package) => LibraryTurn {
                    build: LibraryBuildModel { package, stage: LibraryStage::Compiling, ..build },
                    version: manifest.lib.version,
                    request: Request::Run(cargo_build_of(dir, build.release)),
                },
            },
        },
        (LibraryStage::Compiling, Event::Ran(ran)) => match ran {
            Err(message) => library_ends(
                build,
                manifest,
                Err(
                    in_context(
                        "failed to run `cargo`"@,
                        failure(ErrorKind::MissingDependency, message@),
                    ),
                ),
            ),
            Ok(output) => if output.success {
                LibraryTurn {
                    build: LibraryBuildModel { stage: LibraryStage::ReadingComponent, ..build },
                    version: manifest.lib.version,
                    request: Request::ReadBytes {
                        path: component_path_of(dir, build.release, build.package),
                    },
                }
            } else {
                library_ends(
                    build,
                    manifest,
                    Err(failure(ErrorKind::Subprocess, build_failed(output.stderr@))),
                )
            },
        },
        (LibraryStage::ReadingComponent, Event::Bytes(read)) => match read {
            Err(message) => library_ends(
                build,
                manifest,
                Err(
                    in_context(
                        component_unreadable(component_path_of(dir, build.release, build.package)),
                        failure(ErrorKind::Artifact, message@),
                    ),
                ),
            ),
            Ok(bytes) => LibraryTurn {
                build: LibraryBuildModel {
                    component: bytes@,
                    stage: LibraryStage::ReadingVersion,
                    ..build
                },
                version: manifest.lib.version,
                request: Request::ReadVersion { extension_id: manifest.id, bytes: bytes@ },
            },
        },
        (LibraryStage::ReadingVersion, Event::Version(read)) => match read {
            Err(message) => library_ends(
                build,
                manifest,
                Err(in_context(version_missing(), failure(ErrorKind::Artifact, message@))),
            ),
            Ok(version) => LibraryTurn {
                build: LibraryBuildModel {
                    component: Seq::empty(),
                    stage: LibraryStage::Writing,
                    ..build
                },
                version: Some(version),
                request: Request::WriteBytes {
                    path: extension_wasm_of(dir),
                    bytes: build.component,
                },
            },
        },
        (LibraryStage::Writing, Event::Done(done)) => match done {
            Err(message) => library_ends(
                build,
                manifest,
                Err(
                    in_context(
                        "failed to write extension.wasm"@,
                        failure(ErrorKind::Filesystem, message@),
                    ),
                ),
            ),
            Ok(_) => library_ends(build, manifest, Ok(())),
        },
        _ => library_ends(build, manifest, Err(unexpected())),
    }
}

/// A manifest with another version of its library.
pub open spec fn with_version(manifest: ManifestModel, version: Option<SemanticVersion>)
    -> ManifestModel {
    ManifestModel { lib: LibManifestEntry { kind: manifest.lib.kind, version }, ..manifest }
}

/// A copy of some bytes.
fn copy_of(bytes: &Vec<u8>) -> (copy: Vec<u8>)
    ensures
        copy@ == bytes@,
{
    let mut copy: Vec<u8> = Vec::new();
    let mut i: usize = 0;
    while i < bytes.len()
        invariant
            i <= bytes@.len(),
            copy@ == bytes@.take(i as int),
        decreases bytes.len() - i,
    {
        copy.push(bytes[i]);
        assert(bytes@.take(i + 1) =~= bytes@.take(i as int).push(bytes@[i as int]));
        i += 1;
    }
    assert(bytes@.take(i as int) =~= bytes@);
    copy
}

impl LibraryBuild {
    /// The build of the library, not yet begun.
    pub fn new(extension_dir: &str, release: bool) -> (build: LibraryBuild)
        ensures
            build@ == library_build_of(extension_dir@, release),
    {
        LibraryBuild {
            extension_dir: String::from_str(extension_dir),
            release,
            package: String::new(),
            component: Vec::new(),
            stage: LibraryStage::Idle,
        }
    }

    /// Takes the answer to the last request and hands back the next one.
    /// The first answer is `Event::Start`; after `Action::Finish` the build
    /// is over. Of the manifest only the version of the library changes.
    pub fn step(&mut self, manifest: &mut ExtensionManifest, event: Event) -> (action: Action)
        ensures
            final(self)@ == library_turn(old(self)@, old(manifest)@, event).build,
            final(manifest)@ == with_version(
                old(manifest)@,
                library_turn(old(self)@, old(manifest)@, event).version,
            ),
            final(manifest).grammars == old(manifest).grammars,
            action@ == library_turn(old(self)@, old(manifest)@, event).request,
    {
        let stage = self.stage;
        self.stage = LibraryStage::Finished;
        match (stage, event) {
            (LibraryStage::Idle, Event::Start) => {
                self.stage = LibraryStage::ReadingProject;
                Action::ReadText { path: project_file(self.extension_dir.as_str()) }
            },
            (LibraryStage::ReadingProject, Event::Text(read)) => match read {
                Err(message) => fail(ErrorKind::Filesystem, message),
                Ok(text) => match read_package_name(text.as_str()) {
                    Err(error) => Action::Finish(Err(error)),
                    Ok(package) => {
                        self.package = package;
                        self.stage = LibraryStage::Compiling;
                        Action::Run(cargo_build(self.extension_dir.as_str(), self.release))
                    },
                },
            },
            (LibraryStage::Compiling, Event::Ran(ran)) => match ran {
                Err(message) => fail_in(
                    ErrorKind::MissingDependency,
                    "failed to run `cargo`",
                    message,
                ),
                Ok(output) => {
                    if output.success {
                        self.stage = LibraryStage::ReadingComponent;
                        Action::ReadBytes {
                            path: component_path(
                                self.extension_dir.as_str(),
                                self.release,
                                self.package.as_str(),
                            ),
                        }
                    } else {
                        let mut cause = String::from_str("failed to build extension ");
                        cause.append(output.stderr.as_str());
                        fail(ErrorKind::Subprocess, cause)
                    }
                },
            },
            (LibraryStage::ReadingComponent, Event::Bytes(read)) => match read {
                Err(message) => {
                    let path = component_path(
                        self.extension_dir.as_str(),
                        self.release,
                        self.package.as_str(),
                    );
                    let mut context = String::from_str("failed to read component module `");
                    context.append(path.as_str());
                    context.append("`");
                    fail_in(ErrorKind::Artifact, context.as_str(), message)
                },
                Ok(bytes) => {
                    let copy = copy_of(&bytes);
                    self.component = bytes;
                    self.stage = LibraryStage::ReadingVersion;
                    Action::ReadVersion { extension_id: manifest.id.clone(), bytes: copy }
                },
            },
            (LibraryStage::ReadingVersion, Event::Version(read)) => match read {
                Err(message) => fail_in(
                    ErrorKind::Artifact,
                    "compiled wasm did not contain a valid zed extension api version",
                    message,
                ),
                Ok(version) => {
                    manifest.lib.version = Some(version);
                    let mut bytes: Vec<u8> = Vec::new();
                    core::mem::swap(&mut bytes, &mut self.component);
                    self.stage = LibraryStage::Writing;
                    Action::WriteBytes {
                        path: extension_wasm(self.extension_dir.as_str()),
                        bytes,
                    }
                },
            },
            (LibraryStage::Writing, Event::Done(done)) => match done {
                Err(message) => fail_in(
                    ErrorKind::Filesystem,
                    "failed to write extension.wasm",
                    message,
                ),
                Ok(_) => Action::Finish(Ok(())),
            },
            _ => reject(),
        }
    }
}

/// The events that the build of a library waits for at a stage.
pub open spec fn library_awaits(stage: LibraryStage, event: Event) -> bool {
    match stage {
        LibraryStage::Idle => event is Start,
        LibraryStage::ReadingProject => event is Text,
        LibraryStage::Compiling => event is Ran,
        LibraryStage::ReadingComponent => event is Bytes,
        LibraryStage::ReadingVersion => event is Version,
        LibraryStage::Writing => event is Done,
        LibraryStage::Finished => false,
    }
}

/// The build of a library never blames a driver that answers in kind: told
/// what it waits for, it does not end for an answer that does not fit, and
/// unless it ends, it waits for the answers to what it asks, and for those
/// alone.
pub proof fn lemma_library_keeps_the_protocol(
    build: LibraryBuildModel,
    manifest: ManifestModel,
    event: Event,
)
    requires
        library_awaits(build.stage, event),
    ensures
        !blames_the_driver(library_turn(build, manifest, event).request),
        library_turn(build, manifest, event).request is Finish <==> library_turn(
            build,
            manifest,
            event,
        ).build.stage == LibraryStage::Finished,
        library_turn(build, manifest, event).build.stage != LibraryStage::Idle,
        forall|next: Event|
            library_turn(build, manifest, event).request !is Finish ==> (#[trigger] answers(
                library_turn(build, manifest, event).request,
                next,
            ) <==> library_awaits(library_turn(build, manifest, event).build.stage, next)),
{
}

} // verus!
