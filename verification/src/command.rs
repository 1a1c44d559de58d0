//! The tools that a build runs, each as the program, its arguments, the
//! directory it runs in and the variables set for it.

use vstd::prelude::*;
use crate::text::{followed_by, join, join_path, optional_text, replace, replace_char, texts};

verus! {

/// The target that the extension's own library is compiled for. It supports
/// the component model.
pub open spec fn rust_target() -> Seq<char> {
    "wasm32-wasip2"@
}

/// One run of a tool.
#[derive(Clone, Debug, PartialEq, Eq)]
pub struct Invocation {
    pub program: String,
    pub args: Vec<String>,
    /// The directory to run in, where it is not the driver's own.
    pub current_dir: Option<String>,
    /// The variables to set, each with its value.
    pub env: Vec<(String, String)>,
}

/// A run of a tool as a value of the model.
pub struct InvocationModel {
    pub program: Seq<char>,
    pub args: Seq<Seq<char>>,
    pub current_dir: Option<Seq<char>>,
    pub env: Seq<(Seq<char>, Seq<char>)>,
}

/// The text of each pair of a sequence.
pub open spec fn text_pairs(pairs: Seq<(String, String)>) -> Seq<(Seq<char>, Seq<char>)> {
    pairs.map_values(|pair: (String, String)| (pair.0@, pair.1@))
}

impl View for Invocation {
    type V = InvocationModel;

    open spec fn view(&self) -> InvocationModel {
        InvocationModel {
            program: self.program@,
            args: texts(self.args@),
            current_dir: optional_text(self.current_dir),
            env: text_pairs(self.env@),
        }
    }
}

/// How a tool ended.
#[derive(Clone, Debug, PartialEq, Eq)]
pub struct ProcessOutput {
    /// Whether the tool reported success.
    pub success: bool,
    /// What the tool wrote to its error stream.
    pub stderr: String,
}

/// The name of the profile's directory under the target directory.
pub open spec fn profile_name(release: bool) -> Seq<char> {
    if release {
        "release"@
    } else {
        "debug"@
    }
}

/// The file name of the compiled library of the package `package`: the
/// compiler writes `_` for each `-` of the name.
pub open spec fn component_file_name(package: Seq<char>) -> Seq<char> {
    replace_char(package, '-', '_') + ".wasm"@
}

/// Where the compiler leaves the compiled library of the package `package`.
pub open spec fn component_path_of(dir: Seq<char>, release: bool, package: Seq<char>) -> Seq<
    char,
> {
    join_path(
        join_path(join_path(join_path(dir, "target"@), rust_target()), profile_name(release)),
        component_file_name(package),
    )
}

/// Where the compiled library is published, whatever the profile and the
/// package's name.
pub open spec fn extension_wasm_of(dir: Seq<char>) -> Seq<char> {
    join_path(dir, "extension.wasm"@)
}

/// The working tree of the grammar `name`.
pub open spec fn grammar_dir_of(dir: Seq<char>, name: Seq<char>) -> Seq<char> {
    join_path(join_path(dir, "grammars"@), name)
}

/// Where the compiled grammar `name` is left.
pub open spec fn grammar_wasm_of(dir: Seq<char>, name: Seq<char>) -> Seq<char> {
    grammar_dir_of(dir, name) + ".wasm"@
}

/// The directory of a grammar's sources: `src` under the working tree, or
/// under `path` in it where the grammar does not lie at the root.
pub open spec fn grammar_src_of(dir: Seq<char>, name: Seq<char>, path: Option<Seq<char>>) -> Seq<
    char,
> {
    match path {
        Some(path) => join_path(join_path(grammar_dir_of(dir, name), path), "src"@),
        None => join_path(grammar_dir_of(dir, name), "src"@),
    }
}

/// The scanner of a grammar, which not every grammar has.
pub open spec fn scanner_of(dir: Seq<char>, name: Seq<char>, path: Option<Seq<char>>) -> Seq<
    char,
> {
    join_path(grammar_src_of(dir, name, path), "scanner.c"@)
}

/// The run of the compiler that builds the extension's own library.
pub open spec fn cargo_build_of(dir: Seq<char>, release: bool) -> InvocationModel {
    InvocationModel {
        program: "cargo"@,
        args: seq!["build"@, "--target"@, rust_target()] + (if release {
            seq!["--release"@]
        } else {
            Seq::empty()
        }) + seq!["--target-dir"@, join_path(dir, "target"@)],
        current_dir: Some(dir),
        env: seq![("RUSTC_WRAPPER"@, Seq::<char>::empty())],
    }
}

/// The run of the C compiler that builds the grammar `name`. The scanner is
/// compiled only where the grammar has one.
pub open spec fn clang_of(
    compiler: Seq<char>,
    sysroot: Seq<char>,
    dir: Seq<char>,
    name: Seq<char>,
    path: Option<Seq<char>>,
    has_scanner: bool,
) -> InvocationModel {
    let src = grammar_src_of(dir, name, path);
    InvocationModel {
        program: compiler,
        args: seq![
            "--target=wasm32-wasi"@,
            "--sysroot="@ + sysroot,
            "-fPIC"@,
            "-shared"@,
            "-Os"@,
            "-Wl,--export=tree_sitter_"@ + name,
            "-o"@,
            grammar_wasm_of(dir, name),
            "-I"@,
            src,
            join_path(src, "parser.c"@),
        ] + (if has_scanner {
            seq![join_path(src, "scanner.c"@)]
        } else {
            Seq::empty()
        }),
        current_dir: None,
        env: Seq::empty(),
    }
}

/// `git init` in `directory`.
pub open spec fn git_init_of(directory: Seq<char>) -> InvocationModel {
    InvocationModel {
        program: "git"@,
        args: seq!["init"@],
        current_dir: Some(directory),
        env: Seq::empty(),
    }
}

/// `git remote add origin` with `url`, on the repository in `directory`.
pub open spec fn git_remote_add_of(directory: Seq<char>, url: Seq<char>) -> InvocationModel {
    InvocationModel {
        program: "git"@,
        args: seq![
            "--git-dir"@,
            join_path(directory, ".git"@),
            "remote"@,
            "add"@,
            "origin"@,
            url,
        ],
        current_dir: None,
        env: Seq::empty(),
    }
}

/// A fetch of the one revision `rev` from `origin`, without its history.
pub open spec fn git_fetch_of(directory: Seq<char>, rev: Seq<char>) -> InvocationModel {
    InvocationModel {
        program: "git"@,
        args: seq![
            "--git-dir"@,
            join_path(directory, ".git"@),
            "fetch"@,
            "--depth"@,
            "1"@,
            "origin"@,
            rev,
        ],
        current_dir: None,
        env: Seq::empty(),
    }
}

/// `git checkout` of `rev` in `directory`.
pub open spec fn git_checkout_of(directory: Seq<char>, rev: Seq<char>) -> InvocationModel {
    InvocationModel {
        program: "git"@,
        args: seq!["--git-dir"@, join_path(directory, ".git"@), "checkout"@, rev],
        current_dir: Some(directory),
        env: Seq::empty(),
    }
}

/// Adds one argument.
fn arg(args: &mut Vec<String>, text: &str)
    ensures
        texts(final(args)@) == texts(old(args)@).push(text@),
{
    let ghost before = texts(args@);
    args.push(String::from_str(text));
    assert(texts(args@) =~= before.push(text@));
}

/// An invocation of `program` with `args` and nothing else set.
fn plain(program: &str, args: Vec<String>) -> (invocation: Invocation)
    ensures
        invocation@ == (InvocationModel {
            program: program@,
            args: texts(args@),
            current_dir: None,
            env: Seq::empty(),
        }),
{
    let invocation = Invocation {
        program: String::from_str(program),
        args,
        current_dir: None,
        env: Vec::new(),
    };
    assert(invocation@.env =~= Seq::empty());
    invocation
}

/// Where the compiler leaves the compiled library of the package `package`.
pub fn component_path(dir: &str, release: bool, package: &str) -> (path: String)
    ensures
        path@ == component_path_of(dir@, release, package@),
{
    let target = join(dir, "target");
    let triple = join(target.as_str(), "wasm32-wasip2");
    let profile = join(triple.as_str(), if release { "release" } else { "debug" });
    let stem = replace(package, '-', '_');
    let file = followed_by(stem.as_str(), ".wasm");
    join(profile.as_str(), file.as_str())
}

/// Where the compiled library is published.
pub fn extension_wasm(dir: &str) -> (path: String)
    ensures
        path@ == extension_wasm_of(dir@),
{
    join(dir, "extension.wasm")
}

/// The working tree of the grammar `name`.
pub fn grammar_dir(dir: &str, name: &str) -> (path: String)
    ensures
        path@ == grammar_dir_of(dir@, name@),
{
    let grammars = join(dir, "grammars");
    join(grammars.as_str(), name)
}

/// The directory of a grammar's sources.
pub fn grammar_src(dir: &str, name: &str, path: &Option<String>) -> (src: String)
    ensures
        src@ == grammar_src_of(dir@, name@, optional_text(*path)),
{
    let tree = grammar_dir(dir, name);
    match path {
        Some(path) => {
            let base = join(tree.as_str(), path.as_str());
            join(base.as_str(), "src")
        },
        None => join(tree.as_str(), "src"),
    }
}

/// The scanner of a grammar.
pub fn scanner_file(dir: &str, name: &str, path: &Option<String>) -> (scanner: String)
    ensures
        scanner@ == scanner_of(dir@, name@, optional_text(*path)),
{
    let src = grammar_src(dir, name, path);
    join(src.as_str(), "scanner.c")
}

/// The run of the compiler that builds the extension's own library: for the
/// target of the component model, under the release profile where `release`
/// is set, with its outputs in `target` under `dir`, and with the wrapper
/// that caches compilations switched off by an empty value, since it does
/// not work for this target.
pub fn cargo_build(dir: &str, release: bool) -> (invocation: Invocation)
    ensures
        invocation@ == cargo_build_of(dir@, release),
{
    let mut args: Vec<String> = Vec::new();
    assert(texts(args@) =~= Seq::empty());
    arg(&mut args, "build");
    arg(&mut args, "--target");
    arg(&mut args, "wasm32-wasip2");
    if release {
        arg(&mut args, "--release");
    }
    arg(&mut args, "--target-dir");
    let target = join(dir, "target");
    arg(&mut args, target.as_str());
    let mut env: Vec<(String, String)> = Vec::new();
    env.push((String::from_str("RUSTC_WRAPPER"), String::new()));
    let invocation = Invocation {
        program: String::from_str("cargo"),
        args,
        current_dir: Some(String::from_str(dir)),
        env,
    };
    assert(invocation@.args =~= cargo_build_of(dir@, release).args);
    assert(invocation@.env =~= cargo_build_of(dir@, release).env);
    invocation
}

/// The run of the C compiler that builds the grammar `name`: for the
/// sandboxed target with `sysroot`, as a shared module of position
/// independent code optimized for size, which exports the grammar's entry
/// symbol, from the parser and, where `has_scanner` is set, the scanner.
pub fn clang(
    compiler: &str,
    sysroot: &str,
    dir: &str,
    name: &str,
    path: &Option<String>,
    has_scanner: bool,
) -> (invocation: Invocation)
    ensures
        invocation@ == clang_of(
            compiler@,
            sysroot@,
            dir@,
            name@,
            optional_text(*path),
            has_scanner,
        ),
{
    let src = grammar_src(dir, name, path);
    let tree = grammar_dir(dir, name);
    let mut args: Vec<String> = Vec::new();
    assert(texts(args@) =~= Seq::empty());
    arg(&mut args, "--target=wasm32-wasi");
    arg(&mut args, followed_by("--sysroot=", sysroot).as_str());
    arg(&mut args, "-fPIC");
    arg(&mut args, "-shared");
    arg(&mut args, "-Os");
    arg(&mut args, followed_by("-Wl,--export=tree_sitter_", name).as_str());
    arg(&mut args, "-o");
    arg(&mut args, followed_by(tree.as_str(), ".wasm").as_str());
    arg(&mut args, "-I");
    arg(&mut args, src.as_str());
    arg(&mut args, join(src.as_str(), "parser.c").as_str());
    if has_scanner {
        arg(&mut args, join(src.as_str(), "scanner.c").as_str());
    }
    let invocation = plain(compiler, args);
    assert(invocation@.args =~= clang_of(
        compiler@,
        sysroot@,
        dir@,
        name@,
        optional_text(*path),
        has_scanner,
    ).args);
    invocation
}

/// `git init` in `directory`.
pub fn git_init(directory: &str) -> (invocation: Invocation)
    ensures
        invocation@ == git_init_of(directory@),
{
    let mut args: Vec<String> = Vec::new();
    assert(texts(args@) =~= Seq::empty());
    arg(&mut args, "init");
    let mut invocation = plain("git", args);
    invocation.current_dir = Some(String::from_str(directory));
    assert(invocation@.args =~= git_init_of(directory@).args);
    invocation
}

/// `git remote add origin` with `url`, on the repository in `directory`.
pub fn git_remote_add(directory: &str, url: &str) -> (invocation: Invocation)
    ensures
        invocation@ == git_remote_add_of(directory@, url@),
{
    let mut args: Vec<String> = Vec::new();
    assert(texts(args@) =~= Seq::empty());
    arg(&mut args, "--git-dir");
    arg(&mut args, join(directory, ".git").as_str());
    arg(&mut args, "remote");
    arg(&mut args, "add");
    arg(&mut args, "origin");
    arg(&mut args, url);
    let invocation = plain("git", args);
    assert(invocation@.args =~= git_remote_add_of(directory@, url@).args);
    invocation
}

/// A fetch of the one revision `rev` from `origin`, without its history.
pub fn git_fetch(directory: &str, rev: &str) -> (invocation: Invocation)
    ensures
        invocation@ == git_fetch_of(directory@, rev@),
{
    let mut args: Vec<String> = Vec::new();
    assert(texts(args@) =~= Seq::empty());
    arg(&mut args, "--git-dir");
    arg(&mut args, join(directory, ".git").as_str());
    arg(&mut args, "fetch");
    arg(&mut args, "--depth");
    arg(&mut args, "1");
    arg(&mut args, "origin");
    arg(&mut args, rev);
    let invocation = plain("git", args);
    assert(invocation@.args =~= git_fetch_of(directory@, rev@).args);
    invocation
}

/// `git checkout` of `rev` in `directory`.
pub fn git_checkout(directory: &str, rev: &str) -> (invocation: Invocation)
    ensures
        invocation@ == git_checkout_of(directory@, rev@),
{
    let mut args: Vec<String> = Vec::new();
    assert(texts(args@) =~= Seq::empty());
    arg(&mut args, "--git-dir");
    arg(&mut args, join(directory, ".git").as_str());
    arg(&mut args, "checkout");
    arg(&mut args, rev);
    let mut invocation = plain("git", args);
    invocation.current_dir = Some(String::from_str(directory));
    assert(invocation@.args =~= git_checkout_of(directory@, rev@).args);
    invocation
}

/// The file name of a compiled library holds no dash: each dash of the
/// package's name has become an underscore, and every other character is
/// where it was.
pub proof fn lemma_component_name_has_no_dash(package: Seq<char>)
    ensures
        !replace_char(package, '-', '_').contains('-'),
        replace_char(package, '-', '_').len() == package.len(),
        forall|i: int|
            0 <= i < package.len() ==> #[trigger] replace_char(package, '-', '_')[i] == (
            if package[i] == '-' {
                '_'
            } else {
                package[i]
            }),
{
}

/// The scanner is the last argument of the C compiler where the grammar has
/// one, and without it the arguments are the same but for that one.
pub proof fn lemma_scanner_is_the_only_difference(
    compiler: Seq<char>,
    sysroot: Seq<char>,
    dir: Seq<char>,
    name: Seq<char>,
    path: Option<Seq<char>>,
)
    ensures
        clang_of(compiler, sysroot, dir, name, path, true).args.last() == scanner_of(
            dir,
            name,
            path,
        ),
        clang_of(compiler, sysroot, dir, name, path, false).args == clang_of(
            compiler,
            sysroot,
            dir,
            name,
            path,
            true,
        ).args.drop_last(),
        clang_of(compiler, sysroot, dir, name, path, false).args.last() == join_path(
            grammar_src_of(dir, name, path),
            "parser.c"@,
        ),
{
    let with = clang_of(compiler, sysroot, dir, name, path, true).args;
    let without = clang_of(compiler, sysroot, dir, name, path, false).args;
    assert(without =~= with.drop_last());
}

} // verus!
