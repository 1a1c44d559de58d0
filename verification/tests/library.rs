use extension_builder::command::{cargo_build, ProcessOutput};
use extension_builder::error::{BuildError, ErrorKind};
use extension_builder::library::{LibraryBuild, LibraryStage};
use extension_builder::manifest::{
    ExtensionLibraryKind, ExtensionManifest, SchemaVersion, SemanticVersion,
};
use extension_builder::protocol::{Action, Event};

const PROJECT: &str = "[package]\nname = \"my-extension\"\nversion = \"0.0.1\"\n";

fn manifest() -> ExtensionManifest {
    let mut manifest = ExtensionManifest::new("my-ext".to_string(), SchemaVersion(1));
    manifest.lib.kind = Some(ExtensionLibraryKind::Rust);
    manifest
}

fn ran(success: bool, stderr: &str) -> Event {
    Event::Ran(Ok(ProcessOutput { success, stderr: stderr.to_string() }))
}

fn failed(kind: ErrorKind, chain: &[&str]) -> Action {
    Action::Finish(Err(BuildError {
        kind,
        chain: chain.iter().map(|message| message.to_string()).collect(),
    }))
}

/// The build of a library that has been compiled.
fn compiled(release: bool, manifest: &mut ExtensionManifest) -> LibraryBuild {
    let mut build = LibraryBuild::new("/ext", release);
    build.step(manifest, Event::Start);
    build.step(manifest, Event::Text(Ok(PROJECT.to_string())));
    build.step(manifest, ran(true, ""));
    assert_eq!(build.stage, LibraryStage::ReadingComponent);
    build
}

#[test]
fn new_library_build_is_idle() {
    let build = LibraryBuild::new("/ext", true);
    assert_eq!(build.extension_dir, "/ext");
    assert!(build.release);
    assert_eq!(build.package, "");
    assert!(build.component.is_empty());
    assert_eq!(build.stage, LibraryStage::Idle);
}

#[test]
fn library_is_compiled_read_and_published() {
    let mut manifest = manifest();
    let before = manifest.clone();
    let mut build = LibraryBuild::new("/ext", false);
    assert_eq!(
        build.step(&mut manifest, Event::Start),
        Action::ReadText { path: "/ext/Cargo.toml".to_string() }
    );
    assert_eq!(
        build.step(&mut manifest, Event::Text(Ok(PROJECT.to_string()))),
        Action::Run(cargo_build("/ext", false))
    );
    assert_eq!(build.package, "my-extension");
    assert_eq!(
        build.step(&mut manifest, ran(true, "warning: unused")),
        Action::ReadBytes {
            path: "/ext/target/wasm32-wasip2/debug/my_extension.wasm".to_string()
        }
    );
    assert_eq!(
        build.step(&mut manifest, Event::Bytes(Ok(vec![0, 97, 115, 109]))),
        Action::ReadVersion { extension_id: "my-ext".to_string(), bytes: vec![0, 97, 115, 109] }
    );
    assert_eq!(build.component, vec![0, 97, 115, 109]);
    assert_eq!(manifest, before);
    let version = SemanticVersion { major: 0, minor: 2, patch: 0 };
    assert_eq!(
        build.step(&mut manifest, Event::Version(Ok(version))),
        Action::WriteBytes {
            path: "/ext/extension.wasm".to_string(),
            bytes: vec![0, 97, 115, 109],
        }
    );
    assert_eq!(manifest.lib.version, Some(version));
    assert_eq!(manifest.lib.kind, Some(ExtensionLibraryKind::Rust));
    assert!(build.component.is_empty());
    assert_eq!(build.step(&mut manifest, Event::Done(Ok(()))), Action::Finish(Ok(())));
    assert_eq!(build.stage, LibraryStage::Finished);
    let mut expected = before;
    expected.lib.version = Some(version);
    assert_eq!(manifest, expected);
}

#[test]
fn release_build_reads_the_release_component() {
    let mut manifest = manifest();
    let mut build = LibraryBuild::new("/ext", true);
    build.step(&mut manifest, Event::Start);
    assert_eq!(
        build.step(&mut manifest, Event::Text(Ok(PROJECT.to_string()))),
        Action::Run(cargo_build("/ext", true))
    );
    assert_eq!(
        build.step(&mut manifest, ran(true, "")),
        Action::ReadBytes {
            path: "/ext/target/wasm32-wasip2/release/my_extension.wasm".to_string()
        }
    );
}

#[test]
fn unreadable_project_file_fails() {
    let mut manifest = manifest();
    let mut build = LibraryBuild::new("/ext", false);
    build.step(&mut manifest, Event::Start);
    assert_eq!(
        build.step(&mut manifest, Event::Text(Err("No such file".to_string()))),
        failed(ErrorKind::Filesystem, &["No such file"])
    );
    assert_eq!(build.stage, LibraryStage::Finished);
}

#[test]
fn project_file_without_package_fails() {
    let mut manifest = manifest();
    let mut build = LibraryBuild::new("/ext", false);
    build.step(&mut manifest, Event::Start);
    assert_eq!(
        build.step(&mut manifest, Event::Text(Ok("[workspace]\n".to_string()))),
        failed(ErrorKind::Parse, &["project file declares no package name"])
    );
}

#[test]
fn cargo_that_cannot_be_run_fails_with_context() {
    let mut manifest = manifest();
    let mut build = LibraryBuild::new("/ext", false);
    build.step(&mut manifest, Event::Start);
    build.step(&mut manifest, Event::Text(Ok(PROJECT.to_string())));
    assert_eq!(
        build.step(&mut manifest, Event::Ran(Err("not found".to_string()))),
        failed(ErrorKind::MissingDependency, &["failed to run `cargo`", "not found"])
    );
}

#[test]
fn failed_cargo_reports_its_words() {
    let mut manifest = manifest();
    let mut build = LibraryBuild::new("/ext", false);
    build.step(&mut manifest, Event::Start);
    build.step(&mut manifest, Event::Text(Ok(PROJECT.to_string())));
    assert_eq!(
        build.step(&mut manifest, ran(false, "error[E0425]: cannot find value\n")),
        failed(
            ErrorKind::Subprocess,
            &["failed to build extension error[E0425]: cannot find value\n"]
        )
    );
    assert_eq!(manifest.lib.version, None);
}

#[test]
fn missing_component_names_the_path() {
    let mut manifest = manifest();
    let mut build = compiled(true, &mut manifest);
    assert_eq!(
        build.step(&mut manifest, Event::Bytes(Err("No such file or directory".to_string()))),
        failed(
            ErrorKind::Artifact,
            &[
                "failed to read component module `/ext/target/wasm32-wasip2/release/my_extension.wasm`",
                "No such file or directory",
            ]
        )
    );
    assert_eq!(manifest.lib.version, None);
}

#[test]
fn component_without_version_fails() {
    let mut manifest = manifest();
    let mut build = compiled(false, &mut manifest);
    build.step(&mut manifest, Event::Bytes(Ok(vec![1, 2, 3])));
    assert_eq!(
        build.step(&mut manifest, Event::Version(Err("no custom section".to_string()))),
        failed(
            ErrorKind::Artifact,
            &[
                "compiled wasm did not contain a valid zed extension api version",
                "no custom section",
            ]
        )
    );
    assert_eq!(manifest.lib.version, None);
    assert_eq!(build.stage, LibraryStage::Finished);
}

#[test]
fn failed_write_keeps_the_version() {
    let mut manifest = manifest();
    let mut build = compiled(false, &mut manifest);
    build.step(&mut manifest, Event::Bytes(Ok(vec![1, 2, 3])));
    let version = SemanticVersion { major: 1, minor: 0, patch: 3 };
    build.step(&mut manifest, Event::Version(Ok(version)));
    assert_eq!(
        build.step(&mut manifest, Event::Done(Err("disk full".to_string()))),
        failed(ErrorKind::Filesystem, &["failed to write extension.wasm", "disk full"])
    );
    assert_eq!(manifest.lib.version, Some(version));
}

#[test]
fn answer_that_does_not_fit_ends_the_library() {
    let mut manifest = manifest();
    let mut build = LibraryBuild::new("/ext", false);
    assert_eq!(
        build.step(&mut manifest, Event::Done(Ok(()))),
        failed(ErrorKind::Protocol, &["the driver's answer does not fit the request"])
    );
    assert_eq!(build.stage, LibraryStage::Finished);
    assert_eq!(
        build.step(&mut manifest, Event::Start),
        failed(ErrorKind::Protocol, &["the driver's answer does not fit the request"])
    );
}
