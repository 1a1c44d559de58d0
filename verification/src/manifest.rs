//! The manifest of one extension, as far as a build reads and writes it.

use vstd::prelude::*;
use crate::text::{
    compare,
    lemma_precedes_is_irreflexive,
    lemma_precedes_is_transitive,
    optional_text,
    precedes,
    str_eq,
    texts,
    Order,
};

verus! {

/// The version of the manifest's schema. Version 0 is the legacy schema, whose
/// computed fields are derived anew from disk on every build.
#[derive(Clone, Copy, Debug, PartialEq, Eq, Structural)]
pub struct SchemaVersion(pub i32);

impl SchemaVersion {
    /// Tells whether this is the legacy schema.
    pub open spec fn legacy(self) -> bool {
        self.0 == 0
    }

    /// Tells whether this is the legacy schema.
    pub fn is_v0(&self) -> (legacy: bool)
        ensures
            legacy == self.legacy(),
    {
        self.0 == 0
    }
}

/// What an extension's own library is written in.
#[derive(Clone, Copy, Debug, PartialEq, Eq, Structural)]
pub enum ExtensionLibraryKind {
    Rust,
}

/// The version of the extension interface that a compiled library was built
/// against.
#[derive(Clone, Copy, Debug, PartialEq, Eq, Structural)]
pub struct SemanticVersion {
    pub major: usize,
    pub minor: usize,
    pub patch: usize,
}

/// The extension's own library.
#[derive(Clone, Copy, Debug, PartialEq, Eq, Structural)]
pub struct LibManifestEntry {
    pub kind: Option<ExtensionLibraryKind>,
    pub version: Option<SemanticVersion>,
}

/// Where the sources of one grammar come from.
#[derive(Clone, Debug, PartialEq, Eq)]
pub struct GrammarManifestEntry {
    /// The URL of the repository.
    pub repository: String,
    /// The revision to fetch: a ref or a commit.
    pub rev: String,
    /// Where in the repository the grammar lies, if not at its root.
    pub path: Option<String>,
}

/// A grammar entry as a value of the model.
pub struct GrammarSource {
    pub repository: Seq<char>,
    pub rev: Seq<char>,
    pub path: Option<Seq<char>>,
}

impl View for GrammarManifestEntry {
    type V = GrammarSource;

    open spec fn view(&self) -> GrammarSource {
        GrammarSource {
            repository: self.repository@,
            rev: self.rev@,
            path: optional_text(self.path),
        }
    }
}

impl GrammarManifestEntry {
    /// A copy of this entry.
    pub fn duplicate(&self) -> (copy: GrammarManifestEntry)
        ensures
            copy@ == self@,
    {
        let path = match &self.path {
            Some(p) => Some(p.clone()),
            None => None,
        };
        GrammarManifestEntry { repository: self.repository.clone(), rev: self.rev.clone(), path }
    }
}

/// A grammar under its name.
#[derive(Clone, Debug, PartialEq, Eq)]
pub struct NamedGrammar {
    pub name: String,
    pub entry: GrammarManifestEntry,
}

/// The named grammars of a sequence as pairs of the model, in order.
pub open spec fn grammar_pairs(grammars: Seq<NamedGrammar>) -> Seq<(Seq<char>, GrammarSource)> {
    grammars.map_values(|g: NamedGrammar| (g.name@, g.entry@))
}

/// Tells whether a sequence of pairs holds `name`.
pub open spec fn has_name(pairs: Seq<(Seq<char>, GrammarSource)>, name: Seq<char>) -> bool {
    exists|i: int| 0 <= i < pairs.len() && (#[trigger] pairs[i]).0 == name
}

/// No name occurs twice.
pub open spec fn distinct_names(pairs: Seq<(Seq<char>, GrammarSource)>) -> bool {
    forall|i: int, j: int|
        0 <= i < j < pairs.len() ==> (#[trigger] pairs[i]).0 != (#[trigger] pairs[j]).0
}

/// The names ascend in the order of texts.
pub open spec fn ascending(pairs: Seq<(Seq<char>, GrammarSource)>) -> bool {
    forall|i: int, j: int|
        0 <= i < j < pairs.len() ==> precedes((#[trigger] pairs[i]).0, (#[trigger] pairs[j]).0)
}

/// Where `name` belongs among pairs whose names ascend: behind the pairs
/// whose names come before it.
pub open spec fn slot(pairs: Seq<(Seq<char>, GrammarSource)>, name: Seq<char>) -> int
    decreases pairs.len(),
{
    if pairs.len() > 0 && precedes(pairs[0].0, name) {
        1 + slot(pairs.drop_first(), name)
    } else {
        0
    }
}

/// The pairs before the slot of a name have names that come before it, and
/// the pair at the slot has not.
pub proof fn lemma_slot_divides(table: Seq<(Seq<char>, GrammarSource)>, name: Seq<char>)
    ensures
        0 <= slot(table, name) <= table.len(),
        forall|i: int| 0 <= i < slot(table, name) ==> precedes((#[trigger] table[i]).0, name),
        slot(table, name) < table.len() ==> !precedes(table[slot(table, name)].0, name),
    decreases table.len(),
{
    if table.len() > 0 && precedes(table[0].0, name) {
        let rest = table.drop_first();
        lemma_slot_divides(rest, name);
        assert forall|i: int| 0 <= i < slot(table, name) implies precedes(
            (#[trigger] table[i]).0,
            name,
        ) by {
            if i > 0 {
                assert(table[i] == rest[i - 1]);
            }
        }
        if slot(table, name) < table.len() {
            assert(table[slot(table, name)] == rest[slot(rest, name)]);
        }
    }
}

/// The slot of a name is the first position whose name does not come before
/// it.
pub proof fn lemma_slot_is_the_first(
    pairs: Seq<(Seq<char>, GrammarSource)>,
    name: Seq<char>,
    index: int,
)
    requires
        0 <= index <= pairs.len(),
        forall|i: int| 0 <= i < index ==> precedes((#[trigger] pairs[i]).0, name),
        index == pairs.len() || !precedes(pairs[index].0, name),
    ensures
        slot(pairs, name) == index,
    decreases pairs.len(),
{
    if index > 0 {
        assert(precedes(pairs[0].0, name));
        assert forall|i: int| 0 <= i < index - 1 implies precedes(
            (#[trigger] pairs.drop_first()[i]).0,
            name,
        ) by {
            assert(pairs.drop_first()[i] == pairs[i + 1]);
        }
        lemma_slot_is_the_first(pairs.drop_first(), name, index - 1);
    }
}

/// Names that ascend are distinct.
pub proof fn lemma_ascending_names_are_distinct(pairs: Seq<(Seq<char>, GrammarSource)>)
    requires
        ascending(pairs),
    ensures
        distinct_names(pairs),
{
    assert forall|i: int, j: int| 0 <= i < j < pairs.len() implies (#[trigger] pairs[i]).0 != (
    #[trigger] pairs[j]).0 by {
        lemma_precedes_is_irreflexive(pairs[i].0);
    }
}

/// The grammars of an extension: each name once, in the order of the names.
#[derive(Debug, PartialEq, Eq)]
pub struct GrammarTable {
    entries: Vec<NamedGrammar>,
}

impl View for GrammarTable {
    type V = Seq<(Seq<char>, GrammarSource)>;

    closed spec fn view(&self) -> Seq<(Seq<char>, GrammarSource)> {
        grammar_pairs(self.entries@)
    }
}

impl Clone for GrammarTable {
    /// A copy of the table, with the same grammars in the same order.
    fn clone(&self) -> (copy: GrammarTable)
        ensures
            copy@ == self@,
    {
        proof {
            use_type_invariant(self);
        }
        let mut entries: Vec<NamedGrammar> = Vec::new();
        let mut i: usize = 0;
        while i < self.entries.len()
            invariant
                i <= self.entries@.len(),
                grammar_pairs(entries@) == grammar_pairs(self.entries@).take(i as int),
            decreases self.entries.len() - i,
        {
            let ghost before = grammar_pairs(entries@);
            let named = NamedGrammar {
                name: self.entries[i].name.clone(),
                entry: self.entries[i].entry.duplicate(),
            };
            let ghost pair = (named.name@, named.entry@);
            entries.push(named);
            assert(pair == grammar_pairs(self.entries@)[i as int]);
            assert(grammar_pairs(entries@) =~= before.push(pair));
            assert(grammar_pairs(entries@) =~= grammar_pairs(self.entries@).take(i + 1));
            i += 1;
        }
        assert(grammar_pairs(self.entries@).take(i as int) =~= grammar_pairs(self.entries@));
        GrammarTable { entries }
    }
}

impl GrammarTable {
    /// The table's invariant: the names ascend, so that none occurs twice.
    #[verifier::type_invariant]
    closed spec fn names_ascend(&self) -> bool {
        ascending(grammar_pairs(self.entries@))
    }

    /// The table without a grammar.
    pub fn new() -> (table: GrammarTable)
        ensures
            table@ == Seq::<(Seq<char>, GrammarSource)>::empty(),
    {
        let table = GrammarTable { entries: Vec::new() };
        assert(table@ =~= Seq::empty());
        table
    }

    /// The number of grammars, whose names ascend.
    pub fn len(&self) -> (count: usize)
        ensures
            count == self@.len(),
            ascending(self@),
    {
        proof {
            use_type_invariant(self);
        }
        self.entries.len()
    }

    /// Tells whether the table holds no grammar.
    pub fn is_empty(&self) -> (empty: bool)
        ensures
            empty == (self@.len() == 0),
    {
        self.entries.len() == 0
    }

    /// Removes every grammar.
    pub fn clear(&mut self)
        ensures
            final(self)@ == Seq::<(Seq<char>, GrammarSource)>::empty(),
    {
        self.entries = Vec::new();
        assert(self@ =~= Seq::empty());
    }

    /// The position of `name`, if the table holds it.
    pub fn position(&self, name: &str) -> (found: Option<usize>)
        ensures
            match found {
                Some(i) => i < self@.len() && self@[i as int].0 == name@,
                None => !has_name(self@, name@),
            },
    {
        let mut i: usize = 0;
        while i < self.entries.len()
            invariant
                i <= self.entries.len(),
                forall|j: int| 0 <= j < i ==> (#[trigger] self@[j]).0 != name@,
            decreases self.entries.len() - i,
        {
            if str_eq(self.entries[i].name.as_str(), name) {
                return Some(i);
            }
            i += 1;
        }
        None
    }

    /// Tells whether the table holds a grammar under `name`.
    pub fn contains_key(&self, name: &str) -> (found: bool)
        ensures
            found == has_name(self@, name@),
    {
        self.position(name).is_some()
    }

    /// The grammar under `name`, if the table holds one.
    pub fn get(&self, name: &str) -> (found: Option<&GrammarManifestEntry>)
        ensures
            match found {
                Some(entry) => exists|i: int|
                    0 <= i < self@.len() && #[trigger] self@[i] == (name@, entry@),
                None => !has_name(self@, name@),
            },
    {
        match self.position(name) {
            Some(i) => {
                assert(self@[i as int] == (name@, self.entries@[i as int].entry@));
                Some(&self.entries[i].entry)
            },
            None => None,
        }
    }

    /// The name at a position.
    pub fn name_at(&self, index: usize) -> (name: &String)
        requires
            index < self@.len(),
        ensures
            name@ == self@[index as int].0,
    {
        &self.entries[index].name
    }

    /// The grammar at a position.
    pub fn entry_at(&self, index: usize) -> (entry: &GrammarManifestEntry)
        requires
            index < self@.len(),
        ensures
            entry@ == self@[index as int].1,
    {
        &self.entries[index].entry
    }

    /// Where `name` belongs, and whether a grammar stands there under that
    /// name.
    fn find(entries: &Vec<NamedGrammar>, name: &str) -> (found: (usize, bool))
        requires
            ascending(grammar_pairs(entries@)),
        ensures
            found.0 == slot(grammar_pairs(entries@), name@),
            found.0 <= entries@.len(),
            found.1 ==> found.0 < entries@.len() && entries@[found.0 as int].name@ == name@,
            !found.1 ==> !has_name(grammar_pairs(entries@), name@),
            !found.1 ==> forall|i: int|
                found.0 <= i < entries@.len() ==> precedes(
                    name@,
                    (#[trigger] grammar_pairs(entries@)[i]).0,
                ),
            forall|i: int|
                0 <= i < found.0 ==> precedes((#[trigger] grammar_pairs(entries@)[i]).0, name@),
    {
        let ghost pairs = grammar_pairs(entries@);
        let mut i: usize = 0;
        while i < entries.len()
            invariant
                i <= entries@.len(),
                pairs == grammar_pairs(entries@),
                ascending(pairs),
                forall|j: int| 0 <= j < i ==> precedes((#[trigger] pairs[j]).0, name@),
            decreases entries.len() - i,
        {
            match compare(entries[i].name.as_str(), name) {
                Order::Before => {
                    assert(pairs[i as int].0 == entries@[i as int].name@);
                },
                Order::Same => {
                    proof {
                        assert(pairs[i as int].0 == name@);
                        lemma_precedes_is_irreflexive(name@);
                        lemma_slot_is_the_first(pairs, name@, i as int);
                    }
                    return (i, true);
                },
                Order::After => {
                    proof {
                        let here = pairs[i as int].0;
                        assert(precedes(name@, here));
                        lemma_precedes_is_irreflexive(name@);
                        if precedes(here, name@) {
                            lemma_precedes_is_transitive(name@, here, name@);
                        }
                        lemma_slot_is_the_first(pairs, name@, i as int);
                        assert forall|j: int| i <= j < pairs.len() implies precedes(
                            name@,
                            (#[trigger] pairs[j]).0,
                        ) by {
                            if j > i {
                                lemma_precedes_is_transitive(name@, here, pairs[j].0);
                            }
                        }
                        assert forall|j: int| 0 <= j < pairs.len() implies (#[trigger] pairs[j]).0
                            != name@ by {
                            assert(precedes(pairs[j].0, name@) || precedes(name@, pairs[j].0));
                        }
                    }
                    return (i, false);
                },
            }
            i += 1;
        }
        proof {
            lemma_slot_is_the_first(pairs, name@, i as int);
            lemma_precedes_is_irreflexive(name@);
            assert forall|j: int| 0 <= j < pairs.len() implies (#[trigger] pairs[j]).0
                != name@ by {
                assert(precedes(pairs[j].0, name@));
            }
        }
        (i, false)
    }

    /// Puts `entry` under `name`. A grammar that was under that name is
    /// replaced and handed back; a new name goes where the order of the
    /// names has it.
    pub fn insert(&mut self, name: String, entry: GrammarManifestEntry) -> (previous: Option<
        GrammarManifestEntry,
    >)
        ensures
            ascending(final(self)@),
            match previous {
                Some(before) => exists|i: int|
                    0 <= i < old(self)@.len() && #[trigger] old(self)@[i] == (name@, before@)
                        && final(self)@ == old(self)@.update(i, (name@, entry@)),
                None => !has_name(old(self)@, name@) && final(self)@ == old(self)@.insert(
                    slot(old(self)@, name@),
                    (name@, entry@),
                ),
            },
    {
        let ghost before = self@;
        proof {
            use_type_invariant(&*self);
        }
        let mut entries: Vec<NamedGrammar> = Vec::new();
        assert(grammar_pairs(entries@) =~= Seq::empty());
        core::mem::swap(&mut entries, &mut self.entries);
        let (at, taken) = Self::find(&entries, name.as_str());
        let ghost pair = (name@, entry@);
        let previous = if taken {
            let mut named = NamedGrammar { name, entry };
            core::mem::swap(&mut named, &mut entries[at]);
            proof {
                assert(grammar_pairs(entries@) =~= before.update(at as int, pair));
                assert(before[at as int] == (pair.0, named.entry@));
                assert forall|a: int, b: int| 0 <= a < b < entries@.len() implies precedes(
                    (#[trigger] grammar_pairs(entries@)[a]).0,
                    (#[trigger] grammar_pairs(entries@)[b]).0,
                ) by {
                    assert(grammar_pairs(entries@)[a].0 == before[a].0);
                    assert(grammar_pairs(entries@)[b].0 == before[b].0);
                }
            }
            Some(named.entry)
        } else {
            entries.insert(at, NamedGrammar { name, entry });
            proof {
                assert(grammar_pairs(entries@) =~= before.insert(at as int, pair));
                assert forall|a: int, b: int| 0 <= a < b < entries@.len() implies precedes(
                    (#[trigger] grammar_pairs(entries@)[a]).0,
                    (#[trigger] grammar_pairs(entries@)[b]).0,
                ) by {
                    let after = before.insert(at as int, pair);
                    if b < at {
                        assert(after[a] == before[a] && after[b] == before[b]);
                    } else if b == at {
                        assert(after[a] == before[a]);
                    } else if a < at {
                        assert(after[a] == before[a] && after[b] == before[b - 1]);
                    } else if a == at {
                        assert(after[b] == before[b - 1]);
                    } else {
                        assert(after[a] == before[a - 1] && after[b] == before[b - 1]);
                    }
                }
            }
            None
        };
        core::mem::swap(&mut entries, &mut self.entries);
        previous
    }
}

/// The manifest of one extension.
#[derive(Clone, Debug, PartialEq, Eq)]
pub struct ExtensionManifest {
    /// The extension's stable identifier.
    pub id: String,
    pub schema_version: SchemaVersion,
    pub lib: LibManifestEntry,
    /// The directories of language configurations, relative to the
    /// extension's root.
    pub languages: Vec<String>,
    /// The theme files, relative to the extension's root.
    pub themes: Vec<String>,
    /// The icon theme files, relative to the extension's root.
    pub icon_themes: Vec<String>,
    pub grammars: GrammarTable,
    /// The file of snippets, if the extension has one.
    pub snippets: Option<String>,
}

/// A manifest as a value of the model.
pub struct ManifestModel {
    pub id: Seq<char>,
    pub schema_version: SchemaVersion,
    pub lib: LibManifestEntry,
    pub languages: Seq<Seq<char>>,
    pub themes: Seq<Seq<char>>,
    pub icon_themes: Seq<Seq<char>>,
    pub grammars: Seq<(Seq<char>, GrammarSource)>,
    pub snippets: Option<Seq<char>>,
}

impl View for ExtensionManifest {
    type V = ManifestModel;

    open spec fn view(&self) -> ManifestModel {
        ManifestModel {
            id: self.id@,
            schema_version: self.schema_version,
            lib: self.lib,
            languages: texts(self.languages@),
            themes: texts(self.themes@),
            icon_themes: texts(self.icon_themes@),
            grammars: self.grammars@,
            snippets: optional_text(self.snippets),
        }
    }
}

impl ExtensionManifest {
    /// A manifest that declares nothing but its identifier and schema.
    pub fn new(id: String, schema_version: SchemaVersion) -> (manifest: ExtensionManifest)
        ensures
            manifest@ == (ManifestModel {
                id: id@,
                schema_version,
                lib: LibManifestEntry { kind: None, version: None },
                languages: Seq::empty(),
                themes: Seq::empty(),
                icon_themes: Seq::empty(),
                grammars: Seq::empty(),
                snippets: None,
            }),
    {
        let manifest = ExtensionManifest {
            id,
            schema_version,
            lib: LibManifestEntry { kind: None, version: None },
            languages: Vec::new(),
            themes: Vec::new(),
            icon_themes: Vec::new(),
            grammars: GrammarTable::new(),
            snippets: None,
        };
        assert(manifest@.languages =~= Seq::empty());
        assert(manifest@.themes =~= Seq::empty());
        assert(manifest@.icon_themes =~= Seq::empty());
        manifest
    }
}

} // verus!
