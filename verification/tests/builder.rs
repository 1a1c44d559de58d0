use extension_builder::builder::{Build, BuildStage, CompileExtensionOptions, ExtensionBuilder};
use extension_builder::command::{Invocation, ProcessOutput};
use extension_builder::error::{BuildError, ErrorKind};
use extension_builder::layout::{ExtensionLayout, GrammarFile, LanguageDir, Listed, Listing};
use extension_builder::manifest::{
    ExtensionLibraryKind, ExtensionManifest, GrammarManifestEntry, SchemaVersion, SemanticVersion,
};
use extension_builder::protocol::{Action, Event};

/// A machine as a build sees it, made up for one test.
struct World {
    layout: Option<ExtensionLayout>,
    project_file: Result<String, String>,
    component: Result<Vec<u8>, String>,
    version: Result<SemanticVersion, String>,
    clang: Result<String, String>,
    sysroot: Option<String>,
    existing: Vec<String>,
    /// The programs and first arguments of the runs that report failure,
    /// each with what it writes to its error stream.
    failing: Vec<(String, String, String)>,
    created: Vec<String>,
    written: Vec<(String, Vec<u8>)>,
    runs: Vec<Invocation>,
    asked: Vec<String>,
}

fn empty_layout() -> ExtensionLayout {
    ExtensionLayout {
        has_cargo_toml: false,
        languages: Listing::Absent,
        themes: Listing::Absent,
        icon_themes: Listing::Absent,
        has_snippets: false,
        grammars: Listing::Absent,
    }
}

fn world(layout: ExtensionLayout) -> World {
    World {
        layout: Some(layout),
        project_file: Ok("[package]\nname = \"foo\"\n".to_string()),
        component: Ok(vec![0, 97, 115, 109, 13, 0, 1, 0]),
        version: Ok(SemanticVersion { major: 0, minor: 3, patch: 1 }),
        clang: Ok("/usr/bin/clang".to_string()),
        sysroot: Some("/opt/wasi-sysroot".to_string()),
        existing: Vec::new(),
        failing: Vec::new(),
        created: Vec::new(),
        written: Vec::new(),
        runs: Vec::new(),
        asked: Vec::new(),
    }
}

fn answer(world: &mut World, action: Action) -> Event {
    match action {
        Action::Survey { root } => {
            world.asked.push(format!("survey {root}"));
            Event::Layout(world.layout.take().unwrap())
        }
        Action::CreateDirAll { path } => {
            world.asked.push(format!("mkdir {path}"));
            world.created.push(path.clone());
            world.existing.push(path);
            Event::Done(Ok(()))
        }
        Action::PathExists { path } => {
            world.asked.push(format!("exists {path}"));
            Event::Exists(world.existing.contains(&path))
        }
        Action::ReadText { path } => {
            world.asked.push(format!("read {path}"));
            Event::Text(world.project_file.clone())
        }
        Action::ReadBytes { path } => {
            world.asked.push(format!("read {path}"));
            Event::Bytes(world.component.clone())
        }
        Action::WriteBytes { path, bytes } => {
            world.asked.push(format!("write {path}"));
            world.existing.push(path.clone());
            world.written.push((path, bytes));
            Event::Done(Ok(()))
        }
        Action::Run(invocation) => {
            world.asked.push(format!("run {}", invocation.program));
            let stderr = world
                .failing
                .iter()
                .find(|(program, arg, _)| {
                    *program == invocation.program && invocation.args.contains(arg)
                })
                .map(|(_, _, stderr)| stderr.clone());
            world.runs.push(invocation);
            match stderr {
                Some(stderr) => Event::Ran(Ok(ProcessOutput { success: false, stderr })),
                None => Event::Ran(Ok(ProcessOutput { success: true, stderr: String::new() })),
            }
        }
        Action::FindProgram { name } => {
            world.asked.push(format!("find {name}"));
            Event::Program(world.clang.clone())
        }
        Action::ReadVariable { name } => {
            world.asked.push(format!("env {name}"));
            Event::Variable(world.sysroot.clone())
        }
        Action::ReadVersion { extension_id, bytes } => {
            world.asked.push(format!("version {extension_id} {}", bytes.len()));
            Event::Version(world.version.clone())
        }
        Action::Finish(_) => unreachable!(),
    }
}

/// Runs a build to its end in a made-up world.
fn drive(build: &mut Build, world: &mut World) -> Result<(), BuildError> {
    let mut event = Event::Start;
    for _ in 0..1000 {
        match build.step(event) {
            Action::Finish(result) => return result,
            action => event = answer(world, action),
        }
    }
    panic!("the build does not end");
}

fn start(dir: &str, manifest: ExtensionManifest, release: bool) -> Build {
    ExtensionBuilder::new("/cache".to_string()).compile_extension(
        dir,
        manifest,
        CompileExtensionOptions { release },
    )
}

fn grammar(repository: &str, rev: &str) -> GrammarManifestEntry {
    GrammarManifestEntry { repository: repository.to_string(), rev: rev.to_string(), path: None }
}

fn strings(items: &[&str]) -> Vec<String> {
    items.iter().map(|item| item.to_string()).collect()
}

#[test]
fn builder_keeps_its_cache_dir() {
    let builder = ExtensionBuilder::new("/var/cache/ext".to_string());
    assert_eq!(builder.cache_dir(), "/var/cache/ext");
}

#[test]
fn build_starts_idle_with_the_manifest() {
    let manifest = ExtensionManifest::new("ext".to_string(), SchemaVersion(1));
    let build = start("/ext", manifest.clone(), true);
    assert_eq!(build.stage, BuildStage::Idle);
    assert!(!build.is_finished());
    assert_eq!(build.extension_dir, "/ext");
    assert_eq!(build.cache_dir, "/cache");
    assert_eq!(build.manifest(), &manifest);
    assert!(build.library.release);
    assert_eq!(build.grammar, None);
    assert_eq!(build.into_manifest(), manifest);
}

#[test]
fn library_alone_is_built_and_published() {
    let mut layout = empty_layout();
    layout.has_cargo_toml = true;
    let mut world = world(layout);
    let mut build = start("/ext", ExtensionManifest::new("foo-ext".to_string(), SchemaVersion(1)), true);
    assert_eq!(drive(&mut build, &mut world), Ok(()));
    assert!(build.is_finished());
    assert_eq!(
        world.asked,
        strings(&[
            "survey /ext",
            "mkdir /cache",
            "read /ext/Cargo.toml",
            "run cargo",
            "read /ext/target/wasm32-wasip2/release/foo.wasm",
            "version foo-ext 8",
            "write /ext/extension.wasm",
        ])
    );
    assert_eq!(
        world.written,
        vec![("/ext/extension.wasm".to_string(), vec![0, 97, 115, 109, 13, 0, 1, 0])]
    );
    let manifest = build.into_manifest();
    assert_eq!(manifest.lib.kind, Some(ExtensionLibraryKind::Rust));
    assert_eq!(manifest.lib.version, Some(SemanticVersion { major: 0, minor: 3, patch: 1 }));
    assert!(manifest.languages.is_empty());
    assert!(manifest.themes.is_empty());
    assert!(manifest.grammars.is_empty());
}

#[test]
fn extension_without_library_or_grammars_builds_nothing() {
    let mut world = world(empty_layout());
    let manifest = ExtensionManifest::new("themes-only".to_string(), SchemaVersion(1));
    let mut build = start("/ext", manifest.clone(), false);
    assert_eq!(drive(&mut build, &mut world), Ok(()));
    assert_eq!(world.asked, strings(&["survey /ext", "mkdir /cache"]));
    assert!(world.runs.is_empty());
    assert_eq!(build.into_manifest(), manifest);
}

#[test]
fn relative_extension_dir_fails_before_anything_is_asked() {
    let mut layout = empty_layout();
    layout.has_cargo_toml = true;
    let mut world = world(layout);
    let manifest = ExtensionManifest::new("ext".to_string(), SchemaVersion(0));
    let mut build = start("work/ext", manifest.clone(), false);
    let error = drive(&mut build, &mut world).unwrap_err();
    assert_eq!(error.kind, ErrorKind::Precondition);
    assert_eq!(error.chain, strings(&["extension dir work/ext is not an absolute path"]));
    assert!(world.asked.is_empty());
    assert!(build.is_finished());
    assert_eq!(build.into_manifest(), manifest);
}

#[test]
fn failed_normalization_ends_the_build() {
    let mut layout = empty_layout();
    layout.has_cargo_toml = true;
    layout.languages = Listing::Entries(vec![Listed::Found(LanguageDir {
        name: "rust".to_string(),
        has_config: true,
    })]);
    layout.themes = Listing::Unreadable("permission denied".to_string());
    let mut world = world(layout);
    let mut build = start("/ext", ExtensionManifest::new("ext".to_string(), SchemaVersion(1)), false);
    let error = drive(&mut build, &mut world).unwrap_err();
    assert_eq!(error.kind, ErrorKind::Filesystem);
    assert_eq!(error.chain, strings(&["failed to list themes dir", "permission denied"]));
    assert_eq!(world.asked, strings(&["survey /ext"]));
    let manifest = build.into_manifest();
    assert_eq!(manifest.languages, strings(&["languages/rust"]));
    assert_eq!(manifest.lib.kind, Some(ExtensionLibraryKind::Rust));
}

#[test]
fn cache_dir_that_cannot_be_created_ends_the_build() {
    let mut layout = empty_layout();
    layout.has_cargo_toml = true;
    let mut build = start("/ext", ExtensionManifest::new("ext".to_string(), SchemaVersion(1)), false);
    assert_eq!(build.step(Event::Start), Action::Survey { root: "/ext".to_string() });
    assert_eq!(
        build.step(Event::Layout(layout)),
        Action::CreateDirAll { path: "/cache".to_string() }
    );
    assert_eq!(build.stage, BuildStage::CreatingCacheDir);
    assert_eq!(
        build.step(Event::Done(Err("read-only file system".to_string()))),
        Action::Finish(Err(BuildError {
            kind: ErrorKind::Filesystem,
            chain: strings(&["failed to create cache dir", "read-only file system"]),
        }))
    );
    assert!(build.is_finished());
}

#[test]
fn failed_library_is_reported_under_its_stage() {
    let mut layout = empty_layout();
    layout.has_cargo_toml = true;
    let mut world = world(layout);
    world.failing.push(("cargo".to_string(), "build".to_string(), "error: boom\n".to_string()));
    let mut manifest = ExtensionManifest::new("ext".to_string(), SchemaVersion(1));
    manifest.grammars.insert("go".to_string(), grammar("https://example.com/go", "v1"));
    let mut build = start("/ext", manifest, false);
    let error = drive(&mut build, &mut world).unwrap_err();
    assert_eq!(error.kind, ErrorKind::Subprocess);
    assert_eq!(
        error.chain,
        strings(&["failed to compile Rust extension", "failed to build extension error: boom\n"])
    );
    assert_eq!(
        error.message(),
        "failed to compile Rust extension: failed to build extension error: boom\n"
    );
    assert!(world.asked.iter().all(|asked| !asked.starts_with("find")));
    assert_eq!(build.manifest().lib.version, None);
}

#[test]
fn component_under_another_name_is_not_found() {
    let mut layout = empty_layout();
    layout.has_cargo_toml = true;
    let mut world = world(layout);
    world.project_file = Ok("[package]\nname = \"my-extension\"\n".to_string());
    world.component = Err("No such file or directory (os error 2)".to_string());
    let mut build = start("/ext", ExtensionManifest::new("ext".to_string(), SchemaVersion(1)), false);
    let error = drive(&mut build, &mut world).unwrap_err();
    assert_eq!(error.kind, ErrorKind::Artifact);
    assert_eq!(
        error.chain,
        strings(&[
            "failed to compile Rust extension",
            "failed to read component module `/ext/target/wasm32-wasip2/debug/my_extension.wasm`",
            "No such file or directory (os error 2)",
        ])
    );
    assert!(world.written.is_empty());
}

#[test]
fn grammars_are_built_in_the_order_of_their_names() {
    let mut world = world(empty_layout());
    world.existing.push("/ext/grammars/ada".to_string());
    world.existing.push("/ext/grammars/ada/src/scanner.c".to_string());
    let mut manifest = ExtensionManifest::new("ext".to_string(), SchemaVersion(1));
    manifest.grammars.insert("zig".to_string(), grammar("https://example.com/zig", "v2"));
    manifest.grammars.insert("ada".to_string(), grammar("https://example.com/ada", "v1"));
    let before = manifest.clone();
    let mut build = start("/ext", manifest, false);
    assert_eq!(drive(&mut build, &mut world), Ok(()));
    assert_eq!(
        world.asked,
        strings(&[
            "survey /ext",
            "mkdir /cache",
            "find clang",
            "env WASI_LIBC_PATH",
            "exists /ext/grammars/ada",
            "exists /ext/grammars/ada/src/scanner.c",
            "run /usr/bin/clang",
            "find clang",
            "env WASI_LIBC_PATH",
            "exists /ext/grammars/zig",
            "mkdir /ext/grammars/zig",
            "run git",
            "run git",
            "run git",
            "run git",
            "exists /ext/grammars/zig/src/scanner.c",
            "run /usr/bin/clang",
        ])
    );
    assert_eq!(
        world.runs[0].args.last(),
        Some(&"/ext/grammars/ada/src/scanner.c".to_string())
    );
    assert!(world.runs[0].args.contains(&"-Wl,--export=tree_sitter_ada".to_string()));
    assert!(world.runs[0].args.contains(&"--sysroot=/opt/wasi-sysroot".to_string()));
    assert_eq!(world.runs[1].args, strings(&["init"]));
    assert_eq!(
        world.runs[5].args.last(),
        Some(&"/ext/grammars/zig/src/parser.c".to_string())
    );
    assert_eq!(build.into_manifest(), before);
}

#[test]
fn library_is_built_before_the_grammars() {
    let mut layout = empty_layout();
    layout.has_cargo_toml = true;
    let mut world = world(layout);
    world.existing.push("/ext/grammars/go".to_string());
    let mut manifest = ExtensionManifest::new("ext".to_string(), SchemaVersion(1));
    manifest.grammars.insert("go".to_string(), grammar("https://example.com/go", "v1"));
    let mut build = start("/ext", manifest, false);
    assert_eq!(drive(&mut build, &mut world), Ok(()));
    let programs: Vec<String> = world.runs.iter().map(|run| run.program.clone()).collect();
    assert_eq!(programs, strings(&["cargo", "/usr/bin/clang"]));
    assert_eq!(
        build.manifest().lib.version,
        Some(SemanticVersion { major: 0, minor: 3, patch: 1 })
    );
}

#[test]
fn missing_sysroot_fails_the_build_before_any_compiler_runs() {
    let mut world = world(empty_layout());
    world.sysroot = None;
    let mut manifest = ExtensionManifest::new("ext".to_string(), SchemaVersion(1));
    manifest.grammars.insert("go".to_string(), grammar("https://example.com/go", "v1"));
    let mut build = start("/ext", manifest, false);
    let error = drive(&mut build, &mut world).unwrap_err();
    assert_eq!(error.kind, ErrorKind::MissingDependency);
    assert_eq!(
        error.chain,
        strings(&["failed to compile grammar 'go'", "WASI_LIBC_PATH environment variable not set"])
    );
    assert!(error.message().contains("WASI_LIBC_PATH"));
    assert!(world.runs.is_empty());
    assert_eq!(
        world.asked,
        strings(&["survey /ext", "mkdir /cache", "find clang", "env WASI_LIBC_PATH"])
    );
}

#[test]
fn missing_clang_fails_the_build() {
    let mut world = world(empty_layout());
    world.clang = Err("cannot find binary path".to_string());
    let mut manifest = ExtensionManifest::new("ext".to_string(), SchemaVersion(1));
    manifest.grammars.insert("go".to_string(), grammar("https://example.com/go", "v1"));
    let mut build = start("/ext", manifest, false);
    let error = drive(&mut build, &mut world).unwrap_err();
    assert_eq!(error.kind, ErrorKind::MissingDependency);
    assert_eq!(
        error.chain,
        strings(&["failed to compile grammar 'go'", "cannot find binary path"])
    );
}

#[test]
fn failed_checkout_after_fetch_fails_the_build_with_the_tool_s_words() {
    let mut world = world(empty_layout());
    world.failing.push((
        "git".to_string(),
        "checkout".to_string(),
        "fatal: reference is not a tree: deadbeef\n".to_string(),
    ));
    let mut manifest = ExtensionManifest::new("ext".to_string(), SchemaVersion(1));
    manifest.grammars.insert("go".to_string(), grammar("https://example.com/go", "deadbeef"));
    let mut build = start("/ext", manifest, false);
    let error = drive(&mut build, &mut world).unwrap_err();
    assert_eq!(error.kind, ErrorKind::Subprocess);
    assert_eq!(
        error.chain,
        strings(&[
            "failed to compile grammar 'go'",
            "failed to checkout revision deadbeef in directory '/ext/grammars/go': fatal: reference is not a tree: deadbeef\n",
        ])
    );
    let message = error.message();
    assert!(message.contains("deadbeef"));
    assert!(message.contains("/ext/grammars/go"));
    assert!(message.contains("fatal: reference is not a tree"));
    assert!(!message.contains("failed to fetch"));
    assert!(world.runs.iter().all(|run| run.program == "git"));
}

#[test]
fn failed_fetch_and_checkout_blame_the_fetch() {
    let mut world = world(empty_layout());
    world.failing.push(("git".to_string(), "fetch".to_string(), "no route\n".to_string()));
    world.failing.push(("git".to_string(), "checkout".to_string(), "no such ref\n".to_string()));
    let mut manifest = ExtensionManifest::new("ext".to_string(), SchemaVersion(1));
    manifest.grammars.insert("go".to_string(), grammar("https://example.com/go", "v9"));
    let mut build = start("/ext", manifest, false);
    let error = drive(&mut build, &mut world).unwrap_err();
    assert_eq!(
        error.chain,
        strings(&[
            "failed to compile grammar 'go'",
            "failed to fetch revision v9 in directory '/ext/grammars/go'",
        ])
    );
}

#[test]
fn failed_grammar_stops_the_ones_after_it() {
    let mut world = world(empty_layout());
    world.existing.push("/ext/grammars/a".to_string());
    world.existing.push("/ext/grammars/b".to_string());
    world.failing.push((
        "/usr/bin/clang".to_string(),
        "-Wl,--export=tree_sitter_a".to_string(),
        "parser.c: error\n".to_string(),
    ));
    let mut manifest = ExtensionManifest::new("ext".to_string(), SchemaVersion(1));
    manifest.grammars.insert("a".to_string(), grammar("ra", "1"));
    manifest.grammars.insert("b".to_string(), grammar("rb", "1"));
    let mut build = start("/ext", manifest, false);
    let error = drive(&mut build, &mut world).unwrap_err();
    assert_eq!(
        error.chain,
        strings(&[
            "failed to compile grammar 'a'",
            "failed to compile a parser with clang: parser.c: error\n",
        ])
    );
    assert_eq!(world.runs.len(), 1);
    assert_eq!(build.stage, BuildStage::Finished);
}

#[test]
fn legacy_grammars_from_disk_are_built() {
    let mut layout = empty_layout();
    layout.grammars = Listing::Entries(vec![Listed::Found(GrammarFile {
        name: "go.toml".to_string(),
        name_is_text: true,
        contents: Ok("repository = \"https://example.com/go\"\ncommit = \"c0ffee\"\n".to_string()),
    })]);
    let mut world = world(layout);
    let mut manifest = ExtensionManifest::new("ext".to_string(), SchemaVersion(0));
    manifest.grammars.insert("stale".to_string(), grammar("r", "1"));
    let mut build = start("/ext", manifest, false);
    assert_eq!(drive(&mut build, &mut world), Ok(()));
    assert_eq!(build.manifest().grammars.len(), 1);
    assert_eq!(build.manifest().grammars.name_at(0), "go");
    assert!(world.runs.iter().any(|run| run.args == strings(&[
        "--git-dir",
        "/ext/grammars/go/.git",
        "fetch",
        "--depth",
        "1",
        "origin",
        "c0ffee",
    ])));
    assert!(world.asked.iter().all(|asked| !asked.contains("stale")));
}

#[test]
fn finished_build_asks_nothing_more() {
    let mut world = world(empty_layout());
    let mut build = start("/ext", ExtensionManifest::new("ext".to_string(), SchemaVersion(1)), false);
    assert_eq!(drive(&mut build, &mut world), Ok(()));
    assert_eq!(
        build.step(Event::Start),
        Action::Finish(Err(BuildError {
            kind: ErrorKind::Protocol,
            chain: strings(&["the driver's answer does not fit the request"]),
        }))
    );
    assert!(build.is_finished());
}

#[test]
fn answer_that_does_not_fit_ends_the_build() {
    let mut build = start("/ext", ExtensionManifest::new("ext".to_string(), SchemaVersion(1)), false);
    build.step(Event::Start);
    assert_eq!(
        build.step(Event::Exists(true)),
        Action::Finish(Err(BuildError {
            kind: ErrorKind::Protocol,
            chain: strings(&["the driver's answer does not fit the request"]),
        }))
    );
    assert!(build.is_finished());
}

#[test]
fn answer_that_does_not_fit_a_grammar_is_reported_under_its_name() {
    let mut manifest = ExtensionManifest::new("ext".to_string(), SchemaVersion(1));
    manifest.grammars.insert("go".to_string(), grammar("r", "1"));
    let mut build = start("/ext", manifest, false);
    build.step(Event::Start);
    build.step(Event::Layout(empty_layout()));
    assert_eq!(
        build.step(Event::Done(Ok(()))),
        Action::FindProgram { name: "clang".to_string() }
    );
    assert_eq!(build.stage, BuildStage::Grammar { index: 0 });
    assert_eq!(
        build.step(Event::Exists(true)),
        Action::Finish(Err(BuildError {
            kind: ErrorKind::Protocol,
            chain: strings(&[
                "failed to compile grammar 'go'",
                "the driver's answer does not fit the request",
            ]),
        }))
    );
}
