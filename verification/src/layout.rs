//! What a build finds on disk under the root of an extension, as plain
//! values: the driver of a build looks, and the rules work on what it saw.

use vstd::prelude::*;
use crate::text::{has_extension, join, join_path, strip_extension};

verus! {

/// One entry of a directory as the listing handed it out.
#[derive(Clone, Debug, PartialEq, Eq)]
pub enum Listed<T> {
    /// The entry could not be read; the text says why.
    Unreadable(String),
    Found(T),
}

/// A directory that a build looks into.
#[derive(Clone, Debug, PartialEq, Eq)]
pub enum Listing<T> {
    /// There is no such directory.
    Absent,
    /// The directory is there and could not be listed; the text says why.
    Unreadable(String),
    /// The entries in the order in which the listing handed them out.
    Entries(Vec<Listed<T>>),
}

/// An entry of the directory of languages.
#[derive(Clone, Debug, PartialEq, Eq)]
pub struct LanguageDir {
    /// The entry's name.
    pub name: String,
    /// Whether the entry holds a language configuration file.
    pub has_config: bool,
}

/// An entry of the directory of grammars.
#[derive(Debug, PartialEq, Eq)]
pub struct GrammarFile {
    /// The entry's name.
    pub name: String,
    /// Whether `name` is the name on disk, character for character. It is
    /// not where the name on disk is no valid text.
    pub name_is_text: bool,
    /// The file's text, or why it could not be read. Only consulted for a
    /// grammar description.
    pub contents: Result<String, String>,
}

/// What a build finds under the root of an extension.
#[derive(Debug, PartialEq, Eq)]
pub struct ExtensionLayout {
    /// Whether the root holds a project file for the extension's own library.
    pub has_cargo_toml: bool,
    pub languages: Listing<LanguageDir>,
    /// The names in the directory of themes.
    pub themes: Listing<String>,
    /// The names in the directory of icon themes.
    pub icon_themes: Listing<String>,
    /// Whether the root holds a file of snippets.
    pub has_snippets: bool,
    pub grammars: Listing<GrammarFile>,
}

/// The project file of the extension's own library.
pub fn project_file(root: &str) -> (path: String)
    ensures
        path@ == join_path(root@, "Cargo.toml"@),
{
    join(root, "Cargo.toml")
}

/// The directory of languages.
pub fn languages_dir(root: &str) -> (path: String)
    ensures
        path@ == join_path(root@, "languages"@),
{
    join(root, "languages")
}

/// The configuration file that makes the entry `name` of the directory of
/// languages a language.
pub fn language_config(root: &str, name: &str) -> (path: String)
    ensures
        path@ == join_path(join_path(join_path(root@, "languages"@), name@), "config.toml"@),
{
    let languages = join(root, "languages");
    let language = join(languages.as_str(), name);
    join(language.as_str(), "config.toml")
}

/// The directory of themes.
pub fn themes_dir(root: &str) -> (path: String)
    ensures
        path@ == join_path(root@, "themes"@),
{
    join(root, "themes")
}

/// The directory of icon themes.
pub fn icon_themes_dir(root: &str) -> (path: String)
    ensures
        path@ == join_path(root@, "icon_themes"@),
{
    join(root, "icon_themes")
}

/// The file of snippets.
pub fn snippets_file(root: &str) -> (path: String)
    ensures
        path@ == join_path(root@, "snippets.json"@),
{
    join(root, "snippets.json")
}

/// The directory of grammars.
pub fn grammars_dir(root: &str) -> (path: String)
    ensures
        path@ == join_path(root@, "grammars"@),
{
    join(root, "grammars")
}

/// The entry `name` of the directory of grammars.
pub fn grammar_file(root: &str, name: &str) -> (path: String)
    ensures
        path@ == join_path(join_path(root@, "grammars"@), name@),
{
    let grammars = join(root, "grammars");
    join(grammars.as_str(), name)
}

/// Tells whether an entry of the directory of grammars is the legacy
/// description of a grammar, by its name: the driver reads the text of
/// those.
pub fn is_grammar_description(name: &str) -> (described: bool)
    ensures
        described == has_extension(name@, "toml"@),
{
    strip_extension(name, "toml").is_some()
}

} // verus!
