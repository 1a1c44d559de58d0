//! Normalization of a manifest: the fields that an author may leave out are
//! filled in from what is on disk, and for the legacy schema they are
//! derived from disk alone.

use vstd::prelude::*;
use crate::config::{grammar_of, parse_failure, parsed, read_grammar};
use crate::error::{BuildError, ErrorKind, Failure};
use crate::layout::{ExtensionLayout, GrammarFile, LanguageDir, Listed, Listing};
use crate::manifest::{
    ascending,
    has_name,
    lemma_slot_divides,
    slot,
    ExtensionLibraryKind,
    ExtensionManifest,
    GrammarSource,
    GrammarTable,
    LibManifestEntry,
    ManifestModel,
};
use crate::text::{
    is_absolute_path,
    join,
    join_path,
    lemma_precedes_is_total,
    lemma_precedes_is_transitive,
    precedes,
    stem_before,
    strip_extension,
    texts,
};

verus! {

/// What one entry of a listing does to a list of paths.
pub enum Step {
    /// The entry is none of those looked for.
    Skip,
    /// The entry's path joins the list, unless it is there.
    Add(Seq<char>),
    /// The scan ends here.
    Fail(Failure),
}

/// What one entry of the directory of grammars does to the grammars.
pub enum GrammarStep {
    /// The entry is no description of a grammar.
    Skip,
    /// The grammar joins the others under this name, unless the name is
    /// taken.
    Add(Seq<char>, GrammarSource),
    /// The scan ends here.
    Fail(Failure),
}

/// A list of paths after a scan, and the failure that ended the scan early.
pub struct Scan {
    pub list: Seq<Seq<char>>,
    pub failure: Option<Failure>,
}

/// The grammars after a scan, and the failure that ended the scan early.
pub struct GrammarScan {
    pub table: Seq<(Seq<char>, GrammarSource)>,
    pub failure: Option<Failure>,
}

/// A manifest after normalization, and the failure that ended it early.
pub struct Normalized {
    pub manifest: ManifestModel,
    pub failure: Option<Failure>,
}

/// A failure to list or read, with the system's message.
pub open spec fn io_failure(message: Seq<char>) -> Failure {
    Failure { kind: ErrorKind::Filesystem, chain: seq![message] }
}

/// A failure to list a directory, with what was being listed and the
/// system's message.
pub open spec fn listing_failure(context: Seq<char>, message: Seq<char>) -> Failure {
    Failure { kind: ErrorKind::Filesystem, chain: seq![context, message] }
}

/// `list` with `path` at its end, unless `list` holds it.
pub open spec fn appended(list: Seq<Seq<char>>, path: Seq<char>) -> Seq<Seq<char>> {
    if list.contains(path) {
        list
    } else {
        list.push(path)
    }
}

/// `table` with the grammar where the order of the names has it, unless
/// `table` holds the name.
pub open spec fn declared(
    table: Seq<(Seq<char>, GrammarSource)>,
    name: Seq<char>,
    source: GrammarSource,
) -> Seq<(Seq<char>, GrammarSource)> {
    if has_name(table, name) {
        table
    } else {
        table.insert(slot(table, name), (name, source))
    }
}

/// The steps one after the other, up to the first that fails.
pub open spec fn scan(list: Seq<Seq<char>>, steps: Seq<Step>) -> Scan
    decreases steps.len(),
{
    if steps.len() == 0 {
        Scan { list, failure: None }
    } else {
        let before = scan(list, steps.drop_last());
        if before.failure is Some {
            before
        } else {
            match steps.last() {
                Step::Skip => before,
                Step::Add(path) => Scan { list: appended(before.list, path), failure: None },
                Step::Fail(failure) => Scan { list: before.list, failure: Some(failure) },
            }
        }
    }
}

/// The steps one after the other, up to the first that fails.
pub open spec fn grammar_scan(
    table: Seq<(Seq<char>, GrammarSource)>,
    steps: Seq<GrammarStep>,
) -> GrammarScan
    decreases steps.len(),
{
    if steps.len() == 0 {
        GrammarScan { table, failure: None }
    } else {
        let before = grammar_scan(table, steps.drop_last());
        if before.failure is Some {
            before
        } else {
            match steps.last() {
                GrammarStep::Skip => before,
                GrammarStep::Add(name, source) => GrammarScan {
                    table: declared(before.table, name, source),
                    failure: None,
                },
                GrammarStep::Fail(failure) => GrammarScan {
                    table: before.table,
                    failure: Some(failure),
                },
            }
        }
    }
}

/// An entry of the directory of languages is a language where it holds a
/// configuration file.
pub open spec fn language_step(entry: Listed<LanguageDir>) -> Step {
    match entry {
        Listed::Unreadable(message) => Step::Fail(io_failure(message@)),
        Listed::Found(dir) => if dir.has_config {
            Step::Add(join_path("languages"@, dir.name@))
        } else {
            Step::Skip
        },
    }
}

/// An entry of a directory of themes is a theme where its extension is
/// `json`.
pub open spec fn theme_step(dir: Seq<char>, entry: Listed<String>) -> Step {
    match entry {
        Listed::Unreadable(message) => Step::Fail(io_failure(message@)),
        Listed::Found(name) => if stem_before(name@, "json"@) is Some {
            Step::Add(join_path(dir, name@))
        } else {
            Step::Skip
        },
    }
}

/// An entry of the directory of grammars describes a grammar where its
/// extension is `toml`. Its text must be readable and declare a grammar, and
/// its stem, which names the grammar, must be text.
pub open spec fn grammar_step(entry: Listed<GrammarFile>) -> GrammarStep {
    match entry {
        Listed::Unreadable(message) => GrammarStep::Fail(io_failure(message@)),
        Listed::Found(file) => match stem_before(file.name@, "toml"@) {
            None => GrammarStep::Skip,
            Some(stem) => match file.contents {
                Err(message) => GrammarStep::Fail(io_failure(message@)),
                Ok(text) => match grammar_of(parsed(text@)) {
                    Err(failure) => GrammarStep::Fail(failure),
                    Ok(source) => if file.name_is_text {
                        GrammarStep::Add(stem, source)
                    } else {
                        GrammarStep::Fail(parse_failure("no grammar name"@))
                    },
                },
            },
        },
    }
}

/// The steps of the entries of the directory of languages.
pub open spec fn language_steps(entries: Seq<Listed<LanguageDir>>) -> Seq<Step> {
    entries.map_values(|entry: Listed<LanguageDir>| language_step(entry))
}

/// The steps of the entries of a directory of themes.
pub open spec fn theme_steps(dir: Seq<char>, entries: Seq<Listed<String>>) -> Seq<Step> {
    entries.map_values(|entry: Listed<String>| theme_step(dir, entry))
}

/// The steps of the entries of the directory of grammars.
pub open spec fn grammar_steps(entries: Seq<Listed<GrammarFile>>) -> Seq<GrammarStep> {
    entries.map_values(|entry: Listed<GrammarFile>| grammar_step(entry))
}

/// The languages after a look into the directory of languages.
pub open spec fn with_languages(list: Seq<Seq<char>>, listing: Listing<LanguageDir>) -> Scan {
    match listing {
        Listing::Absent => Scan { list, failure: None },
        Listing::Unreadable(message) => Scan {
            list,
            failure: Some(listing_failure("failed to list languages dir"@, message@)),
        },
        Listing::Entries(entries) => scan(list, language_steps(entries@)),
    }
}

/// The themes after a look into the directory `dir` of themes; a failure to
/// list it is reported under `context`.
pub open spec fn with_themes(
    list: Seq<Seq<char>>,
    dir: Seq<char>,
    context: Seq<char>,
    listing: Listing<String>,
) -> Scan {
    match listing {
        Listing::Absent => Scan { list, failure: None },
        Listing::Unreadable(message) => Scan {
            list,
            failure: Some(listing_failure(context, message@)),
        },
        Listing::Entries(entries) => scan(list, theme_steps(dir, entries@)),
    }
}

/// The grammars after a look into the directory of grammars.
pub open spec fn with_grammars(
    table: Seq<(Seq<char>, GrammarSource)>,
    listing: Listing<GrammarFile>,
) -> GrammarScan {
    match listing {
        Listing::Absent => GrammarScan { table, failure: None },
        Listing::Unreadable(message) => GrammarScan {
            table,
            failure: Some(listing_failure("failed to list grammars dir"@, message@)),
        },
        Listing::Entries(entries) => grammar_scan(table, grammar_steps(entries@)),
    }
}

/// A manifest before the look at the disk: under the legacy schema its
/// languages, grammars and themes are dropped.
pub open spec fn cleared(manifest: ManifestModel) -> ManifestModel {
    if manifest.schema_version.legacy() {
        ManifestModel {
            languages: Seq::empty(),
            grammars: Seq::empty(),
            themes: Seq::empty(),
            ..manifest
        }
    } else {
        manifest
    }
}

/// The library of a manifest once the root was looked at: a project file
/// makes it a Rust library.
pub open spec fn with_library(lib: LibManifestEntry, has_cargo_toml: bool) -> LibManifestEntry {
    if has_cargo_toml {
        LibManifestEntry { kind: Some(ExtensionLibraryKind::Rust), version: lib.version }
    } else {
        lib
    }
}

/// The snippets of a manifest once the root was looked at: a file of
/// snippets there takes the place of what was declared.
pub open spec fn with_snippets(
    snippets: Option<Seq<char>>,
    root: Seq<char>,
    has_snippets: bool,
) -> Option<Seq<char>> {
    if has_snippets {
        Some(join_path(root, "snippets.json"@))
    } else {
        snippets
    }
}

/// The manifest after normalization against what is on disk under `root`.
/// The directories are looked into in a fixed order: languages, themes, icon
/// themes, and under the legacy schema grammars. The first failure ends the
/// normalization, and what was filled in before it stays.
pub open spec fn normalized(manifest: ManifestModel, root: Seq<char>, layout: ExtensionLayout)
    -> Normalized {
    let start = cleared(manifest);
    let lib = with_library(start.lib, layout.has_cargo_toml);
    let languages = with_languages(start.languages, layout.languages);
    let after_languages = ManifestModel { lib, languages: languages.list, ..start };
    if languages.failure is Some {
        Normalized { manifest: after_languages, failure: languages.failure }
    } else {
        let themes = with_themes(
            start.themes,
            "themes"@,
            "failed to list themes dir"@,
            layout.themes,
        );
        let after_themes = ManifestModel { themes: themes.list, ..after_languages };
        if themes.failure is Some {
            Normalized { manifest: after_themes, failure: themes.failure }
        } else {
            let icon_themes = with_themes(
                start.icon_themes,
                "icon_themes"@,
                "failed to list icon themes dir"@,
                layout.icon_themes,
            );
            let after_icons = ManifestModel {
                icon_themes: icon_themes.list,
                ..after_themes
            };
            if icon_themes.failure is Some {
                Normalized { manifest: after_icons, failure: icon_themes.failure }
            } else {
                let after_snippets = ManifestModel {
                    snippets: with_snippets(start.snippets, root, layout.has_snippets),
                    ..after_icons
                };
                if manifest.schema_version.legacy() {
                    let grammars = with_grammars(start.grammars, layout.grammars);
                    Normalized {
                        manifest: ManifestModel { grammars: grammars.table, ..after_snippets },
                        failure: grammars.failure,
                    }
                } else {
                    Normalized { manifest: after_snippets, failure: None }
                }
            }
        }
    }
}

/// The failure of a result, as a value of the model.
pub open spec fn failure_of(result: Result<(), BuildError>) -> Option<Failure> {
    match result {
        Ok(_) => None,
        Err(error) => Some(error@),
    }
}

/// A scan that has failed stays as it is, whatever steps follow.
pub proof fn lemma_scan_stops(list: Seq<Seq<char>>, steps: Seq<Step>, count: int)
    requires
        0 <= count <= steps.len(),
        scan(list, steps.take(count)).failure is Some,
    ensures
        scan(list, steps) == scan(list, steps.take(count)),
    decreases steps.len(),
{
    if count == steps.len() {
        assert(steps.take(count) =~= steps);
    } else {
        assert(steps.drop_last().take(count) =~= steps.take(count));
        lemma_scan_stops(list, steps.drop_last(), count);
    }
}

/// A scan of grammars that has failed stays as it is, whatever steps follow.
pub proof fn lemma_grammar_scan_stops(
    table: Seq<(Seq<char>, GrammarSource)>,
    steps: Seq<GrammarStep>,
    count: int,
)
    requires
        0 <= count <= steps.len(),
        grammar_scan(table, steps.take(count)).failure is Some,
    ensures
        grammar_scan(table, steps) == grammar_scan(table, steps.take(count)),
    decreases steps.len(),
{
    if count == steps.len() {
        assert(steps.take(count) =~= steps);
    } else {
        assert(steps.drop_last().take(count) =~= steps.take(count));
        lemma_grammar_scan_stops(table, steps.drop_last(), count);
    }
}

/// A failure to list or read, with the system's message.
fn io_error(message: &String) -> (error: BuildError)
    ensures
        error@ == io_failure(message@),
{
    BuildError::new(ErrorKind::Filesystem, message.clone())
}

/// A failure to list a directory.
fn listing_error(context: &str, message: &String) -> (error: BuildError)
    ensures
        error@ == listing_failure(context@, message@),
{
    let error = BuildError::new(ErrorKind::Filesystem, message.clone()).context(
        String::from_str(context),
    );
    assert(error@.chain =~= seq![context@, message@]);
    error
}

/// Puts `path` at the end of `list`, unless `list` holds it.
fn push_missing(list: &mut Vec<String>, path: String)
    ensures
        texts(final(list)@) == appended(texts(old(list)@), path@),
{
    let ghost before = texts(list@);
    let mut i: usize = 0;
    while i < list.len()
        invariant
            i <= list@.len(),
            texts(list@) == before,
            forall|j: int| 0 <= j < i ==> before[j] != path@,
        decreases list.len() - i,
    {
        if list[i] == path {
            assert(before[i as int] == path@);
            return ;
        }
        i += 1;
    }
    list.push(path);
    assert(texts(list@) =~= before.push(path@));
}

/// Looks into the directory of languages.
#[verifier::loop_isolation(false)]
fn collect_languages(list: &mut Vec<String>, listing: &Listing<LanguageDir>) -> (result: Result<
    (),
    BuildError,
>)
    ensures
        (Scan { list: texts(final(list)@), failure: failure_of(result) }) == with_languages(
            texts(old(list)@),
            *listing,
        ),
{
    match listing {
        Listing::Absent => Ok(()),
        Listing::Unreadable(message) => Err(listing_error("failed to list languages dir", message)),
        Listing::Entries(entries) => {
            let ghost start = texts(list@);
            let ghost steps = language_steps(entries@);
            let mut i: usize = 0;
            while i < entries.len()
                invariant
                    i <= entries@.len(),
                    steps == language_steps(entries@),
                    scan(start, steps.take(i as int)) == (Scan {
                        list: texts(list@),
                        failure: None,
                    }),
                decreases entries.len() - i,
            {
                proof {
                    assert(steps.take(i + 1).drop_last() =~= steps.take(i as int));
                    assert(steps.take(i + 1).last() == language_step(entries@[i as int]));
                }
                match &entries[i] {
                    Listed::Unreadable(message) => {
                        proof {
                            lemma_scan_stops(start, steps, i + 1);
                        }
                        return Err(io_error(message));
                    },
                    Listed::Found(dir) => {
                        if dir.has_config {
                            push_missing(list, join("languages", dir.name.as_str()));
                        }
                    },
                }
                i += 1;
            }
            proof {
                assert(steps.take(i as int) =~= steps);
            }
            Ok(())
        },
    }
}

/// Looks into a directory of themes.
#[verifier::loop_isolation(false)]
fn collect_themes(
    list: &mut Vec<String>,
    dir: &str,
    context: &str,
    listing: &Listing<String>,
) -> (result: Result<(), BuildError>)
    ensures
        (Scan { list: texts(final(list)@), failure: failure_of(result) }) == with_themes(
            texts(old(list)@),
            dir@,
            context@,
            *listing,
        ),
{
    match listing {
        Listing::Absent => Ok(()),
        Listing::Unreadable(message) => Err(listing_error(context, message)),
        Listing::Entries(entries) => {
            let ghost start = texts(list@);
            let ghost steps = theme_steps(dir@, entries@);
            let mut i: usize = 0;
            while i < entries.len()
                invariant
                    i <= entries@.len(),
                    steps == theme_steps(dir@, entries@),
                    scan(start, steps.take(i as int)) == (Scan {
                        list: texts(list@),
                        failure: None,
                    }),
                decreases entries.len() - i,
            {
                proof {
                    assert(steps.take(i + 1).drop_last() =~= steps.take(i as int));
                    assert(steps.take(i + 1).last() == theme_step(dir@, entries@[i as int]));
                }
                match &entries[i] {
                    Listed::Unreadable(message) => {
                        proof {
                            lemma_scan_stops(start, steps, i + 1);
                        }
                        return Err(io_error(message));
                    },
                    Listed::Found(name) => {
                        if strip_extension(name.as_str(), "json").is_some() {
                            push_missing(list, join(dir, name.as_str()));
                        }
                    },
                }
                i += 1;
            }
            proof {
                assert(steps.take(i as int) =~= steps);
            }
            Ok(())
        },
    }
}

/// Looks into the directory of grammars.
#[verifier::loop_isolation(false)]
fn collect_grammars(table: &mut GrammarTable, listing: &Listing<GrammarFile>) -> (result: Result<
    (),
    BuildError,
>)
    ensures
        (GrammarScan { table: final(table)@, failure: failure_of(result) }) == with_grammars(
            old(table)@,
            *listing,
        ),
{
    match listing {
        Listing::Absent => Ok(()),
        Listing::Unreadable(message) => Err(listing_error("failed to list grammars dir", message)),
        Listing::Entries(entries) => {
            let ghost start = table@;
            let ghost steps = grammar_steps(entries@);
            let mut i: usize = 0;
            while i < entries.len()
                invariant
                    i <= entries@.len(),
                    steps == grammar_steps(entries@),
                    grammar_scan(start, steps.take(i as int)) == (GrammarScan {
                        table: table@,
                        failure: None,
                    }),
                decreases entries.len() - i,
            {
                proof {
                    assert(steps.take(i + 1).drop_last() =~= steps.take(i as int));
                    assert(steps.take(i + 1).last() == grammar_step(entries@[i as int]));
                }
                match &entries[i] {
                    Listed::Unreadable(message) => {
                        proof {
                            lemma_grammar_scan_stops(start, steps, i + 1);
                        }
                        return Err(io_error(message));
                    },
                    Listed::Found(file) => {
                        if let Some(stem) = strip_extension(file.name.as_str(), "toml") {
                            let text = match &file.contents {
                                Ok(text) => text,
                                Err(message) => {
                                    proof {
                                        lemma_grammar_scan_stops(start, steps, i + 1);
                                    }
                                    return Err(io_error(message));
                                },
                            };
                            let entry = match read_grammar(text.as_str()) {
                                Ok(entry) => entry,
                                Err(error) => {
                                    proof {
                                        lemma_grammar_scan_stops(start, steps, i + 1);
                                    }
                                    return Err(error);
                                },
                            };
                            if !file.name_is_text {
                                proof {
                                    lemma_grammar_scan_stops(start, steps, i + 1);
                                }
                                return Err(
                                    BuildError::new(
                                        ErrorKind::Parse,
                                        String::from_str("no grammar name"),
                                    ),
                                );
                            }
                            if !table.contains_key(stem.as_str()) {
                                table.insert(stem, entry);
                            }
                        }
                    },
                }
                i += 1;
            }
            proof {
                assert(steps.take(i as int) =~= steps);
            }
            Ok(())
        },
    }
}

/// Fills in what the manifest leaves to the disk, from what was found under
/// the extension's root. A first failure ends the work; what was filled in
/// before it stays in the manifest.
pub fn populate_defaults(
    manifest: &mut ExtensionManifest,
    extension_path: &str,
    layout: &ExtensionLayout,
) -> (result: Result<(), BuildError>)
    ensures
        (Normalized { manifest: final(manifest)@, failure: failure_of(result) }) == normalized(
            old(manifest)@,
            extension_path@,
            *layout,
        ),
{
    let legacy = manifest.schema_version.is_v0();
    if legacy {
        manifest.languages.clear();
        manifest.grammars.clear();
        manifest.themes.clear();
        assert(texts(manifest.languages@) =~= Seq::empty());
        assert(texts(manifest.themes@) =~= Seq::empty());
    }
    assert(manifest@ == cleared(old(manifest)@));
    if layout.has_cargo_toml {
        manifest.lib.kind = Some(ExtensionLibraryKind::Rust);
    }
    match collect_languages(&mut manifest.languages, &layout.languages) {
        Err(error) => {
            return Err(error);
        },
        Ok(_) => {},
    }
    match collect_themes(
        &mut manifest.themes,
        "themes",
        "failed to list themes dir",
        &layout.themes,
    ) {
        Err(error) => {
            return Err(error);
        },
        Ok(_) => {},
    }
    match collect_themes(
        &mut manifest.icon_themes,
        "icon_themes",
        "failed to list icon themes dir",
        &layout.icon_themes,
    ) {
        Err(error) => {
            return Err(error);
        },
        Ok(_) => {},
    }
    if layout.has_snippets {
        manifest.snippets = Some(join(extension_path, "snippets.json"));
    }
    if legacy {
        collect_grammars(&mut manifest.grammars, &layout.grammars)
    } else {
        Ok(())
    }
}

/// `after` is `before` with entries added at its end, none of which was
/// there when it was added.
pub open spec fn extends(before: Seq<Seq<char>>, after: Seq<Seq<char>>) -> bool {
    &&& before.is_prefix_of(after)
    &&& forall|i: int|
        before.len() <= i < after.len() ==> !after.take(i).contains(#[trigger] after[i])
}

/// A scan removes nothing from a list and adds only what the list lacks.
pub proof fn lemma_scan_extends(list: Seq<Seq<char>>, steps: Seq<Step>)
    ensures
        extends(list, scan(list, steps).list),
    decreases steps.len(),
{
    if steps.len() == 0 {
        assert(list.is_prefix_of(list));
    } else {
        lemma_scan_extends(list, steps.drop_last());
        let before = scan(list, steps.drop_last()).list;
        let after = scan(list, steps).list;
        if after != before {
            let path = steps.last()->Add_0;
            assert(after == before.push(path));
            assert(after.take(before.len() as int) =~= before);
            assert forall|i: int| list.len() <= i < after.len() implies !after.take(i).contains(
                #[trigger] after[i],
            ) by {
                if i < before.len() {
                    assert(after.take(i) =~= before.take(i));
                }
            }
        }
    }
}

/// A scan of grammars leaves every grammar that the table held in the
/// table: a name that is taken keeps its grammar, whatever the disk holds
/// under that name.
pub proof fn lemma_declared_grammars_stay(
    table: Seq<(Seq<char>, GrammarSource)>,
    steps: Seq<GrammarStep>,
)
    ensures
        forall|i: int|
            0 <= i < table.len() ==> grammar_scan(table, steps).table.contains(
                #[trigger] table[i],
            ),
    decreases steps.len(),
{
    if steps.len() > 0 {
        lemma_declared_grammars_stay(table, steps.drop_last());
        let before = grammar_scan(table, steps.drop_last()).table;
        let after = grammar_scan(table, steps).table;
        if after != before {
            let name = steps.last()->Add_0;
            let at = slot(before, name);
            lemma_slot_divides(before, name);
            assert forall|i: int| 0 <= i < table.len() implies after.contains(
                #[trigger] table[i],
            ) by {
                let j = choose|j: int| 0 <= j < before.len() && before[j] == table[i];
                if j < at {
                    assert(after[j] == table[i]);
                } else {
                    assert(after[j + 1] == table[i]);
                }
            }
        }
    }
}

/// Under a schema other than the legacy one, normalization removes nothing
/// that the manifest declared: the languages, themes and icon themes keep
/// their entries in place and gain only entries that they lacked, and the
/// grammars stay as they were. This holds also where the normalization
/// fails.
pub proof fn lemma_normalization_keeps_entries(
    manifest: ManifestModel,
    root: Seq<char>,
    layout: ExtensionLayout,
)
    requires
        !manifest.schema_version.legacy(),
    ensures
        extends(manifest.languages, normalized(manifest, root, layout).manifest.languages),
        extends(manifest.themes, normalized(manifest, root, layout).manifest.themes),
        extends(manifest.icon_themes, normalized(manifest, root, layout).manifest.icon_themes),
        normalized(manifest, root, layout).manifest.grammars == manifest.grammars,
{
    assert(manifest.languages.is_prefix_of(manifest.languages));
    assert(manifest.themes.is_prefix_of(manifest.themes));
    assert(manifest.icon_themes.is_prefix_of(manifest.icon_themes));
    if let Listing::Entries(entries) = layout.languages {
        lemma_scan_extends(manifest.languages, language_steps(entries@));
    }
    if let Listing::Entries(entries) = layout.themes {
        lemma_scan_extends(manifest.themes, theme_steps("themes"@, entries@));
    }
    if let Listing::Entries(entries) = layout.icon_themes {
        lemma_scan_extends(manifest.icon_themes, theme_steps("icon_themes"@, entries@));
    }
}

/// Under the legacy schema, what a manifest declared as languages, themes
/// and grammars has no part in its normalization: two manifests that differ
/// only there are normalized to the same manifest, with the same failure.
pub proof fn lemma_legacy_entries_are_discarded(
    first: ManifestModel,
    second: ManifestModel,
    root: Seq<char>,
    layout: ExtensionLayout,
)
    requires
        first.schema_version.legacy(),
        second == (ManifestModel {
            languages: second.languages,
            themes: second.themes,
            grammars: second.grammars,
            ..first
        }),
    ensures
        normalized(first, root, layout) == normalized(second, root, layout),
{
    assert(cleared(first) == cleared(second));
}

/// Under the legacy schema, a normalization that does not fail leaves as
/// languages, themes and grammars what the disk gives when each list starts
/// empty.
pub proof fn lemma_legacy_entries_come_from_disk(
    manifest: ManifestModel,
    root: Seq<char>,
    layout: ExtensionLayout,
)
    requires
        manifest.schema_version.legacy(),
        normalized(manifest, root, layout).failure is None,
    ensures
        normalized(manifest, root, layout).manifest.languages == with_languages(
            Seq::empty(),
            layout.languages,
        ).list,
        normalized(manifest, root, layout).manifest.themes == with_themes(
            Seq::empty(),
            "themes"@,
            "failed to list themes dir"@,
            layout.themes,
        ).list,
        normalized(manifest, root, layout).manifest.grammars == with_grammars(
            Seq::empty(),
            layout.grammars,
        ).table,
{
}

/// Every path that the steps add is relative.
pub open spec fn adds_relative_paths(steps: Seq<Step>) -> bool {
    forall|i: int|
        0 <= i < steps.len() ==> ((#[trigger] steps[i]) matches Step::Add(path)
            ==> !is_absolute_path(path))
}

/// Where every step adds a relative path, what a scan has added to a list
/// is relative.
pub proof fn lemma_scan_adds_relative_paths(list: Seq<Seq<char>>, steps: Seq<Step>)
    requires
        adds_relative_paths(steps),
    ensures
        forall|i: int|
            list.len() <= i < scan(list, steps).list.len() ==> !is_absolute_path(
                #[trigger] scan(list, steps).list[i],
            ),
    decreases steps.len(),
{
    if steps.len() > 0 {
        assert forall|i: int| 0 <= i < steps.drop_last().len() implies ((
        #[trigger] steps.drop_last()[i]) matches Step::Add(path) ==> !is_absolute_path(path)) by {
            assert(steps.drop_last()[i] == steps[i]);
        }
        lemma_scan_adds_relative_paths(list, steps.drop_last());
        lemma_scan_extends(list, steps.drop_last());
        assert(steps.last() == steps[steps.len() - 1]);
    }
}

/// What normalization adds to the languages, themes and icon themes of a
/// manifest is relative to the extension's root: each path begins with the
/// name of the directory that was looked into.
pub proof fn lemma_normalization_adds_relative_paths(
    manifest: ManifestModel,
    root: Seq<char>,
    layout: ExtensionLayout,
)
    ensures
        forall|i: int|
            cleared(manifest).languages.len() <= i < normalized(
                manifest,
                root,
                layout,
            ).manifest.languages.len() ==> !is_absolute_path(
                #[trigger] normalized(manifest, root, layout).manifest.languages[i],
            ),
        forall|i: int|
            cleared(manifest).themes.len() <= i < normalized(
                manifest,
                root,
                layout,
            ).manifest.themes.len() ==> !is_absolute_path(
                #[trigger] normalized(manifest, root, layout).manifest.themes[i],
            ),
        forall|i: int|
            manifest.icon_themes.len() <= i < normalized(
                manifest,
                root,
                layout,
            ).manifest.icon_themes.len() ==> !is_absolute_path(
                #[trigger] normalized(manifest, root, layout).manifest.icon_themes[i],
            ),
{
    reveal_strlit("languages");
    reveal_strlit("themes");
    reveal_strlit("icon_themes");
    let start = cleared(manifest);
    if let Listing::Entries(entries) = layout.languages {
        assert forall|i: int| 0 <= i < entries@.len() implies ((#[trigger] language_steps(
            entries@,
        )[i]) matches Step::Add(path) ==> !is_absolute_path(path)) by {
            if let Listed::Found(dir) = entries@[i] {
                assert(join_path("languages"@, dir.name@)[0] == 'l');
            }
        }
        lemma_scan_adds_relative_paths(start.languages, language_steps(entries@));
    }
    if let Listing::Entries(entries) = layout.themes {
        assert forall|i: int| 0 <= i < entries@.len() implies ((#[trigger] theme_steps(
            "themes"@,
            entries@,
        )[i]) matches Step::Add(path) ==> !is_absolute_path(path)) by {
            if let Listed::Found(name) = entries@[i] {
                assert(join_path("themes"@, name@)[0] == 't');
            }
        }
        lemma_scan_adds_relative_paths(start.themes, theme_steps("themes"@, entries@));
    }
    if let Listing::Entries(entries) = layout.icon_themes {
        assert forall|i: int| 0 <= i < entries@.len() implies ((#[trigger] theme_steps(
            "icon_themes"@,
            entries@,
        )[i]) matches Step::Add(path) ==> !is_absolute_path(path)) by {
            if let Listed::Found(name) = entries@[i] {
                assert(join_path("icon_themes"@, name@)[0] == 'i');
            }
        }
        lemma_scan_adds_relative_paths(
            start.icon_themes,
            theme_steps("icon_themes"@, entries@),
        );
    }
}

/// A grammar that joins a table whose names ascend leaves them ascending.
pub proof fn lemma_declared_keeps_the_order(
    table: Seq<(Seq<char>, GrammarSource)>,
    name: Seq<char>,
    source: GrammarSource,
)
    requires
        ascending(table),
    ensures
        ascending(declared(table, name, source)),
{
    if !has_name(table, name) {
        let at = slot(table, name);
        let after = table.insert(at, (name, source));
        lemma_slot_divides(table, name);
        assert forall|i: int| at <= i < table.len() implies precedes(
            name,
            (#[trigger] table[i]).0,
        ) by {
            assert(table[at].0 != name);
            lemma_precedes_is_total(table[at].0, name, 0);
            if i > at {
                lemma_precedes_is_transitive(name, table[at].0, table[i].0);
            }
        }
        assert forall|a: int, b: int| 0 <= a < b < after.len() implies precedes(
            (#[trigger] after[a]).0,
            (#[trigger] after[b]).0,
        ) by {
            if b < at {
                assert(after[a] == table[a] && after[b] == table[b]);
            } else if b == at {
                assert(after[a] == table[a]);
            } else if a < at {
                assert(after[a] == table[a] && after[b] == table[b - 1]);
            } else if a == at {
                assert(after[b] == table[b - 1]);
            } else {
                assert(after[a] == table[a - 1] && after[b] == table[b - 1]);
            }
        }
    }
}

/// The grammars of a normalized manifest stand in the order of their names,
/// whatever the order in which the disk handed out their descriptions.
pub proof fn lemma_grammar_scan_keeps_the_order(
    table: Seq<(Seq<char>, GrammarSource)>,
    steps: Seq<GrammarStep>,
)
    requires
        ascending(table),
    ensures
        ascending(grammar_scan(table, steps).table),
    decreases steps.len(),
{
    if steps.len() > 0 {
        lemma_grammar_scan_keeps_the_order(table, steps.drop_last());
        let before = grammar_scan(table, steps.drop_last());
        if before.failure is None {
            if let GrammarStep::Add(name, source) = steps.last() {
                lemma_declared_keeps_the_order(before.table, name, source);
            }
        }
    }
}

/// A failure of the disk or of what a file holds.
pub open spec fn of_the_disk(failure: Option<Failure>) -> bool {
    failure matches Some(reason) ==> reason.kind == ErrorKind::Filesystem || reason.kind
        == ErrorKind::Parse
}

/// A scan of languages fails only for the disk.
pub proof fn lemma_language_scan_fails_for_the_disk(
    list: Seq<Seq<char>>,
    entries: Seq<Listed<LanguageDir>>,
)
    ensures
        of_the_disk(scan(list, language_steps(entries)).failure),
    decreases entries.len(),
{
    if entries.len() > 0 {
        assert(language_steps(entries).drop_last() =~= language_steps(entries.drop_last()));
        lemma_language_scan_fails_for_the_disk(list, entries.drop_last());
    }
}

/// A scan of themes fails only for the disk.
pub proof fn lemma_theme_scan_fails_for_the_disk(
    list: Seq<Seq<char>>,
    dir: Seq<char>,
    entries: Seq<Listed<String>>,
)
    ensures
        of_the_disk(scan(list, theme_steps(dir, entries)).failure),
    decreases entries.len(),
{
    if entries.len() > 0 {
        assert(theme_steps(dir, entries).drop_last() =~= theme_steps(dir, entries.drop_last()));
        lemma_theme_scan_fails_for_the_disk(list, dir, entries.drop_last());
    }
}

/// A scan of grammars fails only for the disk or for what a description
/// holds.
pub proof fn lemma_grammar_scan_fails_for_the_disk(
    table: Seq<(Seq<char>, GrammarSource)>,
    entries: Seq<Listed<GrammarFile>>,
)
    ensures
        of_the_disk(grammar_scan(table, grammar_steps(entries)).failure),
    decreases entries.len(),
{
    if entries.len() > 0 {
        assert(grammar_steps(entries).drop_last() =~= grammar_steps(entries.drop_last()));
        lemma_grammar_scan_fails_for_the_disk(table, entries.drop_last());
    }
}

/// Normalization fails only for the disk or for what a description of a
/// grammar holds.
pub proof fn lemma_normalization_fails_for_the_disk(
    manifest: ManifestModel,
    root: Seq<char>,
    layout: ExtensionLayout,
)
    ensures
        of_the_disk(normalized(manifest, root, layout).failure),
{
    let start = cleared(manifest);
    if let Listing::Entries(entries) = layout.languages {
        lemma_language_scan_fails_for_the_disk(start.languages, entries@);
    }
    if let Listing::Entries(entries) = layout.themes {
        lemma_theme_scan_fails_for_the_disk(start.themes, "themes"@, entries@);
    }
    if let Listing::Entries(entries) = layout.icon_themes {
        lemma_theme_scan_fails_for_the_disk(start.icon_themes, "icon_themes"@, entries@);
    }
    if let Listing::Entries(entries) = layout.grammars {
        lemma_grammar_scan_fails_for_the_disk(start.grammars, entries@);
    }
}

} // verus!
