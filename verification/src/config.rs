//! The two TOML files that a build reads: the project file of the extension's
//! own library, for the package name, and the legacy description of a grammar.
//!
//! The `toml` crate parses the text. A parsed value is opaque here; what it
//! holds is named by `table_entries` and `string_text`, and the rules on what
//! a file must declare are proved over those names.

use vstd::prelude::*;
use crate::error::{BuildError, ErrorKind, Failure};
use crate::manifest::{GrammarManifestEntry, GrammarSource};
use crate::text::optional_text;

verus! {

/// `toml::Value`: a parsed TOML value. Nothing is known of what is in one
/// but what the wrappers below say.
#[verifier::external_type_specification]
#[verifier::external_body]
pub struct ExTomlValue(toml::Value);

/// `toml::de::Error`: why a text is no TOML document.
#[verifier::external_type_specification]
#[verifier::external_body]
pub struct ExTomlError(toml::de::Error);

/// What `toml::from_str` returns for a text: the document's root table as a
/// value, or the error that says why the text is no document.
pub uninterp spec fn parsed(text: Seq<char>) -> Result<toml::Value, toml::de::Error>;

/// The entries of a TOML table by key; a value that is no table has none.
pub uninterp spec fn table_entries(value: toml::Value) -> Map<Seq<char>, toml::Value>;

/// The text of a TOML string; nothing for a value that is no string.
pub uninterp spec fn string_text(value: toml::Value) -> Option<Seq<char>>;

/// What a parse error prints as.
pub uninterp spec fn error_text(error: toml::de::Error) -> Seq<char>;

/// `toml::from_str`, asked for a `toml::Value`: parses `text` as a TOML
/// document. The result is a function of the text alone.
#[verifier::external_body]
fn parse(text: &str) -> (document: Result<toml::Value, toml::de::Error>)
    ensures
        document == parsed(text@),
{
    toml::from_str::<toml::Value>(text)
}

/// `toml::Value::get` with a string key: the entry under `key` where `value`
/// is a table that has one, nothing otherwise.
#[verifier::external_body]
fn lookup<'a>(value: &'a toml::Value, key: &str) -> (entry: Option<&'a toml::Value>)
    ensures
        match entry {
            Some(found) => table_entries(*value).contains_key(key@) && table_entries(*value)[key@]
                == *found,
            None => !table_entries(*value).contains_key(key@),
        },
{
    value.get(key)
}

/// `toml::Value::as_str`: the text where `value` is a string, nothing
/// otherwise.
#[verifier::external_body]
fn as_text(value: &toml::Value) -> (text: Option<String>)
    ensures
        optional_text(text) == string_text(*value),
{
    value.as_str().map(String::from)
}

/// `ToString::to_string` on a `toml::de::Error`: the error as it prints.
#[verifier::external_body]
fn describe(error: &toml::de::Error) -> (message: String)
    ensures
        message@ == error_text(*error),
{
    error.to_string()
}

/// The entry of a table under `key`, if it is there.
pub open spec fn entry_of(value: toml::Value, key: Seq<char>) -> Option<toml::Value> {
    if table_entries(value).contains_key(key) {
        Some(table_entries(value)[key])
    } else {
        None
    }
}

/// The text under `key`, where the table has a string there.
pub open spec fn text_of(value: toml::Value, key: Seq<char>) -> Option<Seq<char>> {
    match entry_of(value, key) {
        Some(entry) => string_text(entry),
        None => None,
    }
}

/// A parse failure with one message.
pub open spec fn parse_failure(message: Seq<char>) -> Failure {
    Failure { kind: ErrorKind::Parse, chain: seq![message] }
}

/// The name that a project file declares for its package: the string `name`
/// of the table `package`.
pub open spec fn declared_package(document: toml::Value) -> Option<Seq<char>> {
    match entry_of(document, "package"@) {
        Some(package) => text_of(package, "name"@),
        None => None,
    }
}

/// The result of reading the package name from a parsed project file.
pub open spec fn package_name_of(document: Result<toml::Value, toml::de::Error>) -> Result<
    Seq<char>,
    Failure,
> {
    match document {
        Ok(root) => match declared_package(root) {
            Some(name) => Ok(name),
            None => Err(parse_failure("project file declares no package name"@)),
        },
        Err(error) => Err(parse_failure(error_text(error))),
    }
}

/// The grammar that a parsed description declares: the strings `repository`
/// and `commit` must be there; `path` may be missing, but where it is there
/// it must be a string.
pub open spec fn declared_grammar(document: toml::Value) -> Result<GrammarSource, Failure> {
    match text_of(document, "repository"@) {
        None => Err(parse_failure("grammar declares no repository"@)),
        Some(repository) => match text_of(document, "commit"@) {
            None => Err(parse_failure("grammar declares no commit"@)),
            Some(rev) => match entry_of(document, "path"@) {
                None => Ok(GrammarSource { repository, rev, path: None }),
                Some(entry) => match string_text(entry) {
                    Some(path) => Ok(GrammarSource { repository, rev, path: Some(path) }),
                    None => Err(parse_failure("grammar path is no string"@)),
                },
            },
        },
    }
}

/// The result of reading a grammar from a parsed description.
pub open spec fn grammar_of(document: Result<toml::Value, toml::de::Error>) -> Result<
    GrammarSource,
    Failure,
> {
    match document {
        Ok(root) => declared_grammar(root),
        Err(error) => Err(parse_failure(error_text(error))),
    }
}

/// The view of a result that holds text.
pub open spec fn text_result(result: Result<String, BuildError>) -> Result<Seq<char>, Failure> {
    match result {
        Ok(text) => Ok(text@),
        Err(error) => Err(error@),
    }
}

/// The view of a result that holds a grammar.
pub open spec fn grammar_result(result: Result<GrammarManifestEntry, BuildError>) -> Result<
    GrammarSource,
    Failure,
> {
    match result {
        Ok(entry) => Ok(entry@),
        Err(error) => Err(error@),
    }
}

/// The text under `key` in a table.
fn text_under(value: &toml::Value, key: &str) -> (text: Option<String>)
    ensures
        optional_text(text) == text_of(*value, key@),
{
    match lookup(value, key) {
        Some(entry) => as_text(entry),
        None => None,
    }
}

/// The package name in a parsed project file.
pub fn package_name_in(document: &toml::Value) -> (name: Option<String>)
    ensures
        optional_text(name) == declared_package(*document),
{
    match lookup(document, "package") {
        Some(package) => text_under(package, "name"),
        None => None,
    }
}

/// The grammar in a parsed description.
pub fn grammar_in(document: &toml::Value) -> (grammar: Result<GrammarManifestEntry, BuildError>)
    ensures
        grammar_result(grammar) == declared_grammar(*document),
{
    let repository = match text_under(document, "repository") {
        Some(repository) => repository,
        None => {
            return Err(
                BuildError::new(
                    ErrorKind::Parse,
                    String::from_str("grammar declares no repository"),
                ),
            );
        },
    };
    let rev = match text_under(document, "commit") {
        Some(rev) => rev,
        None => {
            return Err(
                BuildError::new(ErrorKind::Parse, String::from_str("grammar declares no commit")),
            );
        },
    };
    match lookup(document, "path") {
        None => Ok(GrammarManifestEntry { repository, rev, path: None }),
        Some(entry) => match as_text(entry) {
            Some(path) => Ok(GrammarManifestEntry { repository, rev, path: Some(path) }),
            None => Err(
                BuildError::new(ErrorKind::Parse, String::from_str("grammar path is no string")),
            ),
        },
    }
}

/// Reads the package name from the text of a project file.
pub fn read_package_name(text: &str) -> (name: Result<String, BuildError>)
    ensures
        text_result(name) == package_name_of(parsed(text@)),
{
    match parse(text) {
        Ok(root) => match package_name_in(&root) {
            Some(name) => Ok(name),
            None => Err(
                BuildError::new(
                    ErrorKind::Parse,
                    String::from_str("project file declares no package name"),
                ),
            ),
        },
        Err(error) => Err(BuildError::new(ErrorKind::Parse, describe(&error))),
    }
}

/// Reads a grammar from the text of its legacy description.
pub fn read_grammar(text: &str) -> (grammar: Result<GrammarManifestEntry, BuildError>)
    ensures
        grammar_result(grammar) == grammar_of(parsed(text@)),
{
    match parse(text) {
        Ok(root) => grammar_in(&root),
        Err(error) => Err(BuildError::new(ErrorKind::Parse, describe(&error))),
    }
}

} // verus!
