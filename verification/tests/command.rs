use extension_builder::command::{
    cargo_build, clang, component_path, extension_wasm, git_checkout, git_fetch, git_init,
    git_remote_add, grammar_dir, grammar_src, scanner_file, Invocation,
};

fn strings(items: &[&str]) -> Vec<String> {
    items.iter().map(|item| item.to_string()).collect()
}

#[test]
fn component_path_replaces_dashes_by_underscores() {
    let path = component_path("/ext", false, "my-extension");
    assert_eq!(path, "/ext/target/wasm32-wasip2/debug/my_extension.wasm");
    assert!(path.contains("my_extension"));
    assert!(!path.contains("my-extension"));
}

#[test]
fn component_path_follows_the_profile() {
    assert_eq!(component_path("/ext", true, "foo"), "/ext/target/wasm32-wasip2/release/foo.wasm");
    assert_eq!(component_path("/ext", false, "foo"), "/ext/target/wasm32-wasip2/debug/foo.wasm");
}

#[test]
fn component_path_appends_the_extension() {
    assert_eq!(
        component_path("/e", true, "a-b.c-d"),
        "/e/target/wasm32-wasip2/release/a_b.c_d.wasm"
    );
}

#[test]
fn published_component_lies_at_the_root() {
    assert_eq!(extension_wasm("/home/me/ext"), "/home/me/ext/extension.wasm");
}

#[test]
fn grammar_places() {
    assert_eq!(grammar_dir("/ext", "python"), "/ext/grammars/python");
    assert_eq!(grammar_src("/ext", "python", &None), "/ext/grammars/python/src");
    assert_eq!(
        grammar_src("/ext", "tsx", &Some("typescript/tsx".to_string())),
        "/ext/grammars/tsx/typescript/tsx/src"
    );
    assert_eq!(scanner_file("/ext", "python", &None), "/ext/grammars/python/src/scanner.c");
    assert_eq!(
        scanner_file("/ext", "tsx", &Some("tsx".to_string())),
        "/ext/grammars/tsx/tsx/src/scanner.c"
    );
}

#[test]
fn cargo_build_for_debug() {
    assert_eq!(
        cargo_build("/ext", false),
        Invocation {
            program: "cargo".to_string(),
            args: strings(&["build", "--target", "wasm32-wasip2", "--target-dir", "/ext/target"]),
            current_dir: Some("/ext".to_string()),
            env: vec![("RUSTC_WRAPPER".to_string(), String::new())],
        }
    );
}

#[test]
fn cargo_build_for_release() {
    assert_eq!(
        cargo_build("/ext", true),
        Invocation {
            program: "cargo".to_string(),
            args: strings(&[
                "build",
                "--target",
                "wasm32-wasip2",
                "--release",
                "--target-dir",
                "/ext/target",
            ]),
            current_dir: Some("/ext".to_string()),
            env: vec![("RUSTC_WRAPPER".to_string(), String::new())],
        }
    );
}

#[test]
fn clang_without_scanner_omits_it() {
    let invocation = clang("/usr/bin/clang", "/opt/wasi", "/ext", "python", &None, false);
    assert_eq!(
        invocation,
        Invocation {
            program: "/usr/bin/clang".to_string(),
            args: strings(&[
                "--target=wasm32-wasi",
                "--sysroot=/opt/wasi",
                "-fPIC",
                "-shared",
                "-Os",
                "-Wl,--export=tree_sitter_python",
                "-o",
                "/ext/grammars/python.wasm",
                "-I",
                "/ext/grammars/python/src",
                "/ext/grammars/python/src/parser.c",
            ]),
            current_dir: None,
            env: Vec::new(),
        }
    );
    assert!(invocation.args.iter().all(|arg| !arg.contains("scanner")));
}

#[test]
fn clang_with_scanner_includes_it() {
    let invocation = clang("/usr/bin/clang", "/opt/wasi", "/ext", "python", &None, true);
    assert_eq!(
        invocation.args,
        strings(&[
            "--target=wasm32-wasi",
            "--sysroot=/opt/wasi",
            "-fPIC",
            "-shared",
            "-Os",
            "-Wl,--export=tree_sitter_python",
            "-o",
            "/ext/grammars/python.wasm",
            "-I",
            "/ext/grammars/python/src",
            "/ext/grammars/python/src/parser.c",
            "/ext/grammars/python/src/scanner.c",
        ])
    );
}

#[test]
fn clang_compiles_under_the_grammar_s_path() {
    let invocation =
        clang("clang", "/wasi", "/ext", "tsx", &Some("typescript/tsx".to_string()), true);
    assert_eq!(
        invocation.args,
        strings(&[
            "--target=wasm32-wasi",
            "--sysroot=/wasi",
            "-fPIC",
            "-shared",
            "-Os",
            "-Wl,--export=tree_sitter_tsx",
            "-o",
            "/ext/grammars/tsx.wasm",
            "-I",
            "/ext/grammars/tsx/typescript/tsx/src",
            "/ext/grammars/tsx/typescript/tsx/src/parser.c",
            "/ext/grammars/tsx/typescript/tsx/src/scanner.c",
        ])
    );
}

#[test]
fn git_commands() {
    assert_eq!(
        git_init("/ext/grammars/go"),
        Invocation {
            program: "git".to_string(),
            args: strings(&["init"]),
            current_dir: Some("/ext/grammars/go".to_string()),
            env: Vec::new(),
        }
    );
    assert_eq!(
        git_remote_add("/ext/grammars/go", "https://example.com/go"),
        Invocation {
            program: "git".to_string(),
            args: strings(&[
                "--git-dir",
                "/ext/grammars/go/.git",
                "remote",
                "add",
                "origin",
                "https://example.com/go",
            ]),
            current_dir: None,
            env: Vec::new(),
        }
    );
    assert_eq!(
        git_fetch("/ext/grammars/go", "abc123"),
        Invocation {
            program: "git".to_string(),
            args: strings(&[
                "--git-dir",
                "/ext/grammars/go/.git",
                "fetch",
                "--depth",
                "1",
                "origin",
                "abc123",
            ]),
            current_dir: None,
            env: Vec::new(),
        }
    );
    assert_eq!(
        git_checkout("/ext/grammars/go", "abc123"),
        Invocation {
            program: "git".to_string(),
            args: strings(&["--git-dir", "/ext/grammars/go/.git", "checkout", "abc123"]),
            current_dir: Some("/ext/grammars/go".to_string()),
            env: Vec::new(),
        }
    );
}
