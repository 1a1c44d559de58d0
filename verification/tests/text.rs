use extension_builder::text::{
    chars_of, compare, followed_by, is_absolute, join, replace, str_eq, string_of,
    strip_extension, Order,
};

#[test]
fn absolute_paths_start_with_the_separator() {
    assert!(is_absolute("/home/user/ext"));
    assert!(!is_absolute("home/user/ext"));
    assert!(!is_absolute(""));
}

#[test]
fn join_puts_one_separator_between() {
    assert_eq!(join("/ext", "grammars"), "/ext/grammars");
    assert_eq!(join("", "x"), "/x");
}

#[test]
fn replace_changes_every_occurrence() {
    assert_eq!(replace("my-extension", '-', '_'), "my_extension");
    assert_eq!(replace("a--b-", '-', '_'), "a__b_");
    assert_eq!(replace("plain", '-', '_'), "plain");
}

#[test]
fn strip_extension_needs_a_stem() {
    assert_eq!(strip_extension("one.json", "json"), Some("one".to_string()));
    assert_eq!(strip_extension("a.b.json", "json"), Some("a.b".to_string()));
    assert_eq!(strip_extension(".json", "json"), None);
    assert_eq!(strip_extension("json", "json"), None);
    assert_eq!(strip_extension("one.toml", "json"), None);
    assert_eq!(strip_extension("onejson", "json"), None);
    assert_eq!(strip_extension("", "json"), None);
}

#[test]
fn text_equality_is_by_characters() {
    assert!(str_eq("", ""));
    assert!(str_eq("gr\u{e4}mmar", "gr\u{e4}mmar"));
    assert!(!str_eq("go", "go "));
    assert!(!str_eq("go", "gO"));
    assert!(!str_eq("", "x"));
}

#[test]
fn characters_and_back() {
    assert_eq!(chars_of("a-\u{e4}"), vec!['a', '-', '\u{e4}']);
    assert_eq!(chars_of(""), Vec::<char>::new());
    let chars = vec!['s', 't', 'e', 'm', '.', 'x'];
    assert_eq!(string_of(&chars, 0, 4), "stem");
    assert_eq!(string_of(&chars, 4, 6), ".x");
    assert_eq!(string_of(&chars, 3, 3), "");
}

#[test]
fn concat_appends() {
    assert_eq!(followed_by("--sysroot=", "/opt/wasi"), "--sysroot=/opt/wasi");
    assert_eq!(followed_by("", ""), "");
}

#[test]
fn compare_orders_texts_as_str_does() {
    assert_eq!(compare("", ""), Order::Same);
    assert_eq!(compare("", "a"), Order::Before);
    assert_eq!(compare("a", ""), Order::After);
    assert_eq!(compare("ada", "ada"), Order::Same);
    assert_eq!(compare("ada", "ada2"), Order::Before);
    assert_eq!(compare("b", "ab"), Order::After);
    assert_eq!(compare("Zig", "ada"), Order::Before);
    let texts = ["", "a", "A", "ab", "b", "c-sharp", "c_sharp", "\u{e9}", "z", "\u{10348}", "\u{ffff}"];
    for left in texts {
        for right in texts {
            let expected = if left < right {
                Order::Before
            } else if left == right {
                Order::Same
            } else {
                Order::After
            };
            assert_eq!(compare(left, right), expected);
        }
    }
}
