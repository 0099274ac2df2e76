//! The imports that a generated module needs from the modules of other client
//! fields: gathered as a set while a selection set is walked, emitted as a
//! block of import statements in an order that does not depend on the walk.

use crate::generate_artifacts::{output_type_symbol, reader_output_type, ArtifactFileType};
use crate::string_key_newtype::{IsographObjectTypeName, SelectableFieldName};
use crate::text::{
    lemma_text_precedes_irreflexive, lemma_text_precedes_total, lemma_text_precedes_transitive,
    text_order, text_precedes, TextOrder,
};
use vstd::prelude::*;

verus! {

/// Which module of another client field is imported.
#[derive(Clone, Copy, Debug, PartialEq, Eq, Structural)]
pub enum ImportedFileCategory {
    /// Its reader, which a reader module imports.
    ResolverReader,
    /// Its output type, which a parameter-type module imports.
    OutputType,
}

impl ImportedFileCategory {
    /// The place of the category among the imports of one client field.
    pub open spec fn rank(self) -> int {
        match self {
            ImportedFileCategory::ResolverReader => 0,
            ImportedFileCategory::OutputType => 1,
        }
    }

    fn position(&self) -> (position: u8)
        ensures
            position == self.rank(),
    {
        match self {
            ImportedFileCategory::ResolverReader => 0,
            ImportedFileCategory::OutputType => 1,
        }
    }
}

/// A client field, named by its parent type and its own name.
#[derive(Clone, Debug)]
pub struct ObjectTypeAndFieldName {
    pub object_name: IsographObjectTypeName,
    pub field_name: SelectableFieldName,
}

/// One import that a generated module needs.
#[derive(Clone, Debug)]
pub struct ImportRequirement {
    pub type_and_field: ObjectTypeAndFieldName,
    pub category: ImportedFileCategory,
}

/// An import requirement as plain text.
pub struct ImportKey {
    pub object_name: Seq<char>,
    pub field_name: Seq<char>,
    pub category: ImportedFileCategory,
}

impl View for ImportRequirement {
    type V = ImportKey;

    open spec fn view(&self) -> ImportKey {
        ImportKey {
            object_name: self.type_and_field.object_name@,
            field_name: self.type_and_field.field_name@,
            category: self.category,
        }
    }
}

/// The order in which imports are emitted: by parent type, then by field,
/// then by category.
pub open spec fn key_precedes(a: ImportKey, b: ImportKey) -> bool {
    ||| text_precedes(a.object_name, b.object_name)
    ||| a.object_name == b.object_name && text_precedes(a.field_name, b.field_name)
    ||| a.object_name == b.object_name && a.field_name == b.field_name && a.category.rank()
        < b.category.rank()
}

/// Each entry precedes every later one. A sorted sequence therefore holds no
/// requirement twice.
pub open spec fn sorted(entries: Seq<ImportKey>) -> bool {
    forall|i: int, j: int| 0 <= i < j < entries.len() ==> key_precedes(entries[i], entries[j])
}

/// The name under which another client field's reader is imported.
pub open spec fn underscore_separated(object_name: Seq<char>, field_name: Seq<char>) -> Seq<char> {
    object_name + "__"@ + field_name
}

/// The path from the directory of one client field's artifacts to a module of
/// another: two levels up, then down by parent type and field.
pub open spec fn relative_module_path(
    object_name: Seq<char>,
    field_name: Seq<char>,
    file_type: ArtifactFileType,
) -> Seq<char> {
    "../../"@ + object_name + "/"@ + field_name + "/"@ + file_type.file_name()
}

/// The import statement of one requirement, with its line end.
pub open spec fn import_line(key: ImportKey) -> Seq<char> {
    match key.category {
        ImportedFileCategory::ResolverReader => "import "@ + underscore_separated(
            key.object_name,
            key.field_name,
        ) + " from '"@ + relative_module_path(
            key.object_name,
            key.field_name,
            ArtifactFileType::Reader,
        ) + "';\n"@,
        ImportedFileCategory::OutputType => "import { "@ + output_type_symbol(
            key.object_name,
            key.field_name,
        ) + " } from '"@ + relative_module_path(
            key.object_name,
            key.field_name,
            ArtifactFileType::OutputType,
        ) + "';\n"@,
    }
}

/// The import block of one category: the line of each entry of that
/// category, in the order of the entries.
pub open spec fn import_block(entries: Seq<ImportKey>, category: ImportedFileCategory) -> Seq<char>
    decreases entries.len(),
{
    if entries.len() == 0 {
        Seq::empty()
    } else if entries.last().category == category {
        import_block(entries.drop_last(), category) + import_line(entries.last())
    } else {
        import_block(entries.drop_last(), category)
    }
}

/// The entries of the set that holds what `a` holds and what `b` holds.
pub open spec fn merged_imports(a: Seq<ImportKey>, b: Seq<ImportKey>) -> Seq<ImportKey> {
    choose|merged: Seq<ImportKey>|
        sorted(merged) && merged.to_set() == a.to_set().union(b.to_set())
}

/// No requirement precedes itself.
pub proof fn lemma_key_precedes_irreflexive(a: ImportKey)
    ensures
        !key_precedes(a, a),
{
    lemma_text_precedes_irreflexive(a.object_name);
    lemma_text_precedes_irreflexive(a.field_name);
}

/// The order on requirements is transitive.
pub proof fn lemma_key_precedes_transitive(a: ImportKey, b: ImportKey, c: ImportKey)
    requires
        key_precedes(a, b),
        key_precedes(b, c),
    ensures
        key_precedes(a, c),
{
    if text_precedes(a.object_name, b.object_name) && text_precedes(b.object_name, c.object_name) {
        lemma_text_precedes_transitive(a.object_name, b.object_name, c.object_name);
    }
    if text_precedes(a.field_name, b.field_name) && text_precedes(b.field_name, c.field_name) {
        lemma_text_precedes_transitive(a.field_name, b.field_name, c.field_name);
    }
}

/// Of two different requirements one precedes the other: what a set of
/// requirements holds decides the order in which they are emitted.
pub proof fn lemma_key_precedes_total(a: ImportKey, b: ImportKey)
    ensures
        a == b || key_precedes(a, b) || key_precedes(b, a),
{
    lemma_text_precedes_total(a.object_name, b.object_name);
    lemma_text_precedes_total(a.field_name, b.field_name);
}

/// A sorted sequence holds each of its requirements at one position only: an
/// import block has one line for it, however often it was asked for.
pub proof fn lemma_one_entry_per_requirement(entries: Seq<ImportKey>, key: ImportKey)
    requires
        sorted(entries),
        entries.contains(key),
    ensures
        exists|i: int|
            {
                &&& 0 <= i < entries.len()
                &&& #[trigger] entries[i] == key
                &&& forall|j: int| 0 <= j < entries.len() && entries[j] == key ==> j == i
            },
{
    let i = choose|i: int| 0 <= i < entries.len() && entries[i] == key;
    lemma_key_precedes_irreflexive(key);
    assert(entries[i] == key);
}

/// Two sorted sequences that hold the same requirements are the same
/// sequence: the order in which requirements were found leaves no trace.
pub proof fn lemma_sorted_entries_unique(a: Seq<ImportKey>, b: Seq<ImportKey>)
    requires
        sorted(a),
        sorted(b),
        a.to_set() == b.to_set(),
    ensures
        a == b,
    decreases a.len(),
{
    if a.len() == 0 {
        if b.len() > 0 {
            assert(b.contains(b[0]));
            assert(b.to_set().contains(b[0]));
            assert(a.contains(b[0]));
        }
        assert(a =~= b);
    } else {
        assert(a.contains(a[0]));
        assert(a.to_set().contains(a[0]));
        assert(b.contains(a[0]));
        let j = choose|j: int| 0 <= j < b.len() && b[j] == a[0];
        assert(b.contains(b[0]));
        assert(b.to_set().contains(b[0]));
        assert(a.contains(b[0]));
        let i = choose|i: int| 0 <= i < a.len() && a[i] == b[0];
        lemma_key_precedes_irreflexive(a[0]);
        if j > 0 {
            if i > 0 {
                lemma_key_precedes_transitive(a[0], a[i], a[0]);
            }
        }
        assert(a[0] == b[0]);
        let rest_a = a.drop_first();
        let rest_b = b.drop_first();
        assert forall|e: ImportKey| rest_a.to_set().contains(e) == rest_b.to_set().contains(
            e,
        ) by {
            lemma_key_precedes_irreflexive(e);
            if rest_a.contains(e) {
                let k = choose|k: int| 0 <= k < rest_a.len() && rest_a[k] == e;
                assert(a[k + 1] == e);
                assert(a.contains(e));
                assert(a.to_set().contains(e));
                assert(b.contains(e));
                let m = choose|m: int| 0 <= m < b.len() && b[m] == e;
                assert(rest_b[m - 1] == e);
            }
            if rest_b.contains(e) {
                let k = choose|k: int| 0 <= k < rest_b.len() && rest_b[k] == e;
                assert(b[k + 1] == e);
                assert(b.contains(e));
                assert(b.to_set().contains(e));
                assert(a.contains(e));
                let m = choose|m: int| 0 <= m < a.len() && a[m] == e;
                assert(rest_a[m - 1] == e);
            }
        }
        assert(rest_a.to_set() =~= rest_b.to_set());
        lemma_sorted_entries_unique(rest_a, rest_b);
        assert(a =~= seq![a[0]] + rest_a);
        assert(b =~= seq![b[0]] + rest_b);
    }
}

/// A requirement that is asked for again changes nothing: the entries, and
/// with them every import block, stay as they were.
pub proof fn lemma_repeated_requirement(
    before: Seq<ImportKey>,
    after: Seq<ImportKey>,
    key: ImportKey,
)
    requires
        sorted(before),
        sorted(after),
        before.contains(key),
        after.to_set() == before.to_set().insert(key),
    ensures
        after == before,
{
    assert(before.to_set().contains(key));
    assert(before.to_set().insert(key) =~= before.to_set());
    lemma_sorted_entries_unique(after, before);
}

/// The entries with `key` put in at `position`, where everything before
/// precedes it and it precedes everything after, stay sorted and hold `key`
/// besides what they held.
proof fn lemma_insert_keeps_sorted(entries: Seq<ImportKey>, key: ImportKey, position: int)
    requires
        sorted(entries),
        0 <= position <= entries.len(),
        forall|j: int| 0 <= j < position ==> key_precedes(entries[j], key),
        forall|j: int| position <= j < entries.len() ==> key_precedes(key, entries[j]),
    ensures
        sorted(entries.insert(position, key)),
        entries.insert(position, key).to_set() == entries.to_set().insert(key),
        !entries.contains(key),
{
    let grown = entries.insert(position, key);
    assert forall|i: int, j: int| 0 <= i < j < grown.len() implies key_precedes(
        grown[i],
        grown[j],
    ) by {
        if j < position {
            assert(grown[i] == entries[i] && grown[j] == entries[j]);
        } else if j == position {
            assert(grown[i] == entries[i]);
        } else if i < position {
            assert(grown[i] == entries[i] && grown[j] == entries[j - 1]);
        } else if i == position {
            assert(grown[j] == entries[j - 1]);
        } else {
            assert(grown[i] == entries[i - 1] && grown[j] == entries[j - 1]);
        }
    }
    assert forall|e: ImportKey| grown.to_set().contains(e) == entries.to_set().insert(
        key,
    ).contains(e) by {
        if grown.contains(e) {
            let k = choose|k: int| 0 <= k < grown.len() && grown[k] == e;
            if k < position {
                assert(entries[k] == e);
            } else if k > position {
                assert(entries[k - 1] == e);
            }
        }
        if entries.contains(e) {
            let k = choose|k: int| 0 <= k < entries.len() && entries[k] == e;
            if k < position {
                assert(grown[k] == e);
            } else {
                assert(grown[k + 1] == e);
            }
        }
        if e == key {
            assert(grown[position] == e);
        }
    }
    assert(grown.to_set() =~= entries.to_set().insert(key));
    lemma_key_precedes_irreflexive(key);
}

impl ObjectTypeAndFieldName {
    /// The name under which the field's reader is imported.
    pub fn underscore_separated(&self) -> (name: String)
        ensures
            name@ == underscore_separated(self.object_name@, self.field_name@),
    {
        let mut name = String::from_str(self.object_name.lookup());
        name.append("__");
        name.append(self.field_name.lookup());
        name
    }

    /// The path to one of the field's modules from the directory of another
    /// field's artifacts.
    pub fn relative_path(&self, file_type: ArtifactFileType) -> (path: String)
        ensures
            path@ == relative_module_path(self.object_name@, self.field_name@, file_type),
    {
        let mut path = String::from_str("../../");
        path.append(self.object_name.lookup());
        path.append("/");
        path.append(self.field_name.lookup());
        path.append("/");
        path.append(file_type.lookup());
        path
    }
}

impl ImportRequirement {
    /// The import statement of the requirement, with its line end.
    pub fn import_statement(&self) -> (line: String)
        ensures
            line@ == import_line(self@),
    {
        match self.category {
            ImportedFileCategory::ResolverReader => {
                let name = self.type_and_field.underscore_separated();
                let path = self.type_and_field.relative_path(ArtifactFileType::Reader);
                let mut line = String::from_str("import ");
                line.append(name.as_str());
                line.append(" from '");
                line.append(path.as_str());
                line.append("';\n");
                line
            },
            ImportedFileCategory::OutputType => {
                let name = reader_output_type(
                    &self.type_and_field.object_name,
                    &self.type_and_field.field_name,
                );
                let path = self.type_and_field.relative_path(ArtifactFileType::OutputType);
                let mut line = String::from_str("import { ");
                line.append(name.as_str());
                line.append(" } from '");
                line.append(path.as_str());
                line.append("';\n");
                line
            },
        }
    }

    fn duplicate(&self) -> (copy: ImportRequirement)
        ensures
            copy@ == self@,
    {
        ImportRequirement {
            type_and_field: ObjectTypeAndFieldName {
                object_name: IsographObjectTypeName(
                    String::from_str(self.type_and_field.object_name.lookup()),
                ),
                field_name: SelectableFieldName(
                    String::from_str(self.type_and_field.field_name.lookup()),
                ),
            },
            category: self.category,
        }
    }
}

/// Compares two requirements in the order in which imports are emitted.
fn requirement_order(a: &ImportRequirement, b: &ImportRequirement) -> (order: TextOrder)
    ensures
        order == TextOrder::Before ==> key_precedes(a@, b@),
        order == TextOrder::Same ==> a@ == b@,
        order == TextOrder::After ==> key_precedes(b@, a@),
{
    match text_order(a.type_and_field.object_name.lookup(), b.type_and_field.object_name.lookup()) {
        TextOrder::Before => TextOrder::Before,
        TextOrder::After => TextOrder::After,
        TextOrder::Same => match text_order(
            a.type_and_field.field_name.lookup(),
            b.type_and_field.field_name.lookup(),
        ) {
            TextOrder::Before => TextOrder::Before,
            TextOrder::After => TextOrder::After,
            TextOrder::Same => {
                let rank_a = a.category.position();
                let rank_b = b.category.position();
                if rank_a < rank_b {
                    TextOrder::Before
                } else if rank_b < rank_a {
                    TextOrder::After
                } else {
                    TextOrder::Same
                }
            },
        },
    }
}

/// The imports that were asked for while a selection set was walked, each
/// once, in the order in which they are emitted.
#[derive(Debug)]
pub struct ImportSet {
    entries: Vec<ImportRequirement>,
}

/// The imports that a reader module needs.
pub type ReaderImports = ImportSet;

/// The imports that a parameter-type module needs.
pub type ParamTypeImports = ImportSet;

/// The imports of both kinds, gathered in one set.
pub type NestedClientFieldImports = ImportSet;

impl View for ImportSet {
    type V = Seq<ImportKey>;

    closed spec fn view(&self) -> Seq<ImportKey> {
        Seq::new(self.entries@.len(), |i: int| self.entries@[i]@)
    }
}

impl ImportSet {
    #[verifier::type_invariant]
    spec fn entries_sorted(&self) -> bool {
        sorted(self@)
    }

    /// The empty set.
    pub fn new() -> (imports: ImportSet)
        ensures
            imports@ == Seq::<ImportKey>::empty(),
    {
        let imports = ImportSet { entries: Vec::new() };
        assert(imports@ =~= Seq::<ImportKey>::empty());
        imports
    }

    /// The number of imports in the set.
    pub fn len(&self) -> (len: usize)
        ensures
            len == self@.len(),
    {
        self.entries.len()
    }

    /// Where `requirement` stands among the entries or, if it is not among
    /// them, where it belongs.
    fn position_of(&self, requirement: &ImportRequirement) -> (found: (usize, bool))
        ensures
            found.0 <= self@.len(),
            forall|j: int| 0 <= j < found.0 ==> key_precedes(self@[j], requirement@),
            found.1 ==> found.0 < self@.len() && self@[found.0 as int] == requirement@,
            !found.1 ==> forall|j: int|
                found.0 <= j < self@.len() ==> key_precedes(requirement@, self@[j]),
    {
        proof {
            use_type_invariant(self);
        }
        let mut i: usize = 0;
        while i < self.entries.len()
            invariant
                i <= self.entries.len(),
                self@.len() == self.entries.len(),
                sorted(self@),
                forall|j: int| 0 <= j < self@.len() ==> self@[j] == self.entries@[j]@,
                forall|j: int| 0 <= j < i ==> key_precedes(self@[j], requirement@),
            decreases self.entries.len() - i,
        {
            match requirement_order(&self.entries[i], requirement) {
                TextOrder::Before => {
                    i += 1;
                },
                TextOrder::Same => {
                    return (i, true);
                },
                TextOrder::After => {
                    assert forall|j: int| i <= j < self@.len() implies key_precedes(
                        requirement@,
                        self@[j],
                    ) by {
                        if i < j {
                            lemma_key_precedes_transitive(requirement@, self@[i as int], self@[j]);
                        }
                    }
                    return (i, false);
                },
            }
        }
        (i, false)
    }

    /// Adds one import to the set. Returns whether it was new.
    pub fn insert(&mut self, requirement: ImportRequirement) -> (added: bool)
        ensures
            sorted(final(self)@),
            final(self)@.to_set() == old(self)@.to_set().insert(requirement@),
            added == !old(self)@.contains(requirement@),
            final(self)@.len() == old(self)@.len() + if added {
                1int
            } else {
                0int
            },
    {
        proof {
            use_type_invariant(&*self);
        }
        let (position, present) = self.position_of(&requirement);
        if present {
            proof {
                assert(self@.contains(requirement@));
                assert(self@.to_set().contains(requirement@));
                assert(self@.to_set().insert(requirement@) =~= self@.to_set());
            }
            false
        } else {
            proof {
                lemma_insert_keeps_sorted(self@, requirement@, position as int);
                assert(Seq::new(
                    self.entries@.insert(position as int, requirement).len(),
                    |i: int| self.entries@.insert(position as int, requirement)[i]@,
                ) =~= self@.insert(position as int, requirement@));
            }
            let mut entries: Vec<ImportRequirement> = Vec::new();
            std::mem::swap(&mut self.entries, &mut entries);
            entries.insert(position, requirement);
            std::mem::swap(&mut self.entries, &mut entries);
            true
        }
    }

    /// Adds every import of `other` to the set.
    pub fn merge(&mut self, other: &ImportSet)
        ensures
            sorted(final(self)@),
            final(self)@.to_set() == old(self)@.to_set().union(other@.to_set()),
            final(self)@ == merged_imports(old(self)@, other@),
    {
        proof {
            use_type_invariant(&*self);
        }
        let ghost before = self@;
        let mut i: usize = 0;
        assert(before.to_set().union(other@.take(0).to_set()) =~= before.to_set());
        while i < other.entries.len()
            invariant
                i <= other.entries.len(),
                other@.len() == other.entries.len(),
                forall|j: int| 0 <= j < other@.len() ==> other@[j] == other.entries@[j]@,
                sorted(self@),
                self@.to_set() == before.to_set().union(other@.take(i as int).to_set()),
            decreases other.entries.len() - i,
        {
            let requirement = other.entries[i].duplicate();
            proof {
                let seen = other@.take(i as int);
                let next = other@.take(i + 1);
                assert(next =~= seen.push(other@[i as int]));
                assert forall|e: ImportKey| next.to_set().contains(e) == seen.to_set().insert(
                    other@[i as int],
                ).contains(e) by {
                    if seen.contains(e) {
                        let k = choose|k: int| 0 <= k < seen.len() && seen[k] == e;
                        assert(next[k] == e);
                    }
                    if next.contains(e) {
                        let k = choose|k: int| 0 <= k < next.len() && next[k] == e;
                        if k < i {
                            assert(seen[k] == e);
                        }
                    }
                    if e == other@[i as int] {
                        assert(next[i as int] == e);
                    }
                }
                assert(next.to_set() =~= seen.to_set().insert(other@[i as int]));
                assert(before.to_set().union(seen.to_set()).insert(other@[i as int])
                    =~= before.to_set().union(next.to_set()));
            }
            self.insert(requirement);
            i += 1;
        }
        assert(other@.take(i as int) =~= other@);
        proof {
            lemma_sorted_entries_unique(self@, merged_imports(before, other@));
        }
    }

    /// The import block of one category: one line for each import of that
    /// category, in the order in which the set holds them, which is sorted.
    pub fn import_statements(&self, category: ImportedFileCategory) -> (block: String)
        ensures
            block@ == import_block(self@, category),
            sorted(self@),
    {
        proof {
            use_type_invariant(self);
        }
        let mut block = String::new();
        let mut i: usize = 0;
        while i < self.entries.len()
            invariant
                i <= self.entries.len(),
                self@.len() == self.entries.len(),
                forall|j: int| 0 <= j < self@.len() ==> self@[j] == self.entries@[j]@,
                block@ == import_block(self@.take(i as int), category),
            decreases self.entries.len() - i,
        {
            proof {
                let next = self@.take(i + 1);
                assert(next.drop_last() =~= self@.take(i as int));
                assert(next.last() == self@[i as int]);
            }
            if self.entries[i].category == category {
                let line = self.entries[i].import_statement();
                block.append(line.as_str());
            }
            i += 1;
        }
        assert(self@.take(i as int) =~= self@);
        block
    }
}

/// The block of statements that import the readers a reader module needs.
pub fn reader_imports_to_import_statement(reader_imports: &ReaderImports) -> (block: String)
    ensures
        block@ == import_block(reader_imports@, ImportedFileCategory::ResolverReader),
        sorted(reader_imports@),
{
    reader_imports.import_statements(ImportedFileCategory::ResolverReader)
}

/// The block of statements that import the output types a parameter-type
/// module needs.
pub fn param_type_imports_to_import_statement(param_type_imports: &ParamTypeImports) -> (block:
    String)
    ensures
        block@ == import_block(param_type_imports@, ImportedFileCategory::OutputType),
        sorted(param_type_imports@),
{
    param_type_imports.import_statements(ImportedFileCategory::OutputType)
}

/// Both blocks of one set that holds the imports of both kinds: first the
/// block for the reader module, then the block for the parameter-type module.
pub fn nested_client_field_names_to_import_statement(
    nested_client_field_imports: &NestedClientFieldImports,
) -> (blocks: (String, String))
    ensures
        blocks.0@ == import_block(nested_client_field_imports@, ImportedFileCategory::ResolverReader),
        blocks.1@ == import_block(nested_client_field_imports@, ImportedFileCategory::OutputType),
        sorted(nested_client_field_imports@),
{
    (
        nested_client_field_imports.import_statements(ImportedFileCategory::ResolverReader),
        nested_client_field_imports.import_statements(ImportedFileCategory::OutputType),
    )
}

} // verus!
