use graphql_artifact_generation::generate_artifacts::ArtifactFileType;
use graphql_artifact_generation::import_statements::{
    nested_client_field_names_to_import_statement, param_type_imports_to_import_statement,
    reader_imports_to_import_statement, ImportRequirement, ImportSet, ImportedFileCategory,
    ObjectTypeAndFieldName,
};
use graphql_artifact_generation::string_key_newtype::{
    IsographObjectTypeName, SelectableFieldName,
};
use graphql_artifact_generation::text::{text_order, TextOrder};

fn field(object: &str, field: &str) -> ObjectTypeAndFieldName {
    ObjectTypeAndFieldName {
        object_name: IsographObjectTypeName(object.to_string()),
        field_name: SelectableFieldName(field.to_string()),
    }
}

fn reader_of(object: &str, name: &str) -> ImportRequirement {
    ImportRequirement {
        type_and_field: field(object, name),
        category: ImportedFileCategory::ResolverReader,
    }
}

fn output_type_of(object: &str, name: &str) -> ImportRequirement {
    ImportRequirement {
        type_and_field: field(object, name),
        category: ImportedFileCategory::OutputType,
    }
}

#[test]
fn empty_set_renders_nothing() {
    let imports = ImportSet::new();
    assert_eq!(imports.len(), 0);
    assert_eq!(reader_imports_to_import_statement(&imports), "");
    assert_eq!(param_type_imports_to_import_statement(&imports), "");
}

#[test]
fn requirement_asked_for_twice_is_imported_once() {
    let mut imports = ImportSet::new();
    assert!(imports.insert(reader_of("User", "avatar")));
    assert!(!imports.insert(reader_of("User", "avatar")));
    assert_eq!(imports.len(), 1);
    assert_eq!(
        reader_imports_to_import_statement(&imports),
        "import User__avatar from '../../User/avatar/reader';\n"
    );
}

#[test]
fn import_lines_are_written_exactly() {
    assert_eq!(
        reader_of("User", "avatar").import_statement(),
        "import User__avatar from '../../User/avatar/reader';\n"
    );
    assert_eq!(
        output_type_of("User", "avatar").import_statement(),
        "import { User__avatar__output_type } from '../../User/avatar/output_type';\n"
    );
}

#[test]
fn order_of_discovery_leaves_no_trace() {
    let mut forwards = ImportSet::new();
    forwards.insert(reader_of("Pet", "name"));
    forwards.insert(reader_of("User", "avatar"));
    forwards.insert(reader_of("User", "name"));
    let mut backwards = ImportSet::new();
    backwards.insert(reader_of("User", "name"));
    backwards.insert(reader_of("User", "avatar"));
    backwards.insert(reader_of("Pet", "name"));
    backwards.insert(reader_of("User", "avatar"));
    let expected = "import Pet__name from '../../Pet/name/reader';\n\
                    import User__avatar from '../../User/avatar/reader';\n\
                    import User__name from '../../User/name/reader';\n";
    assert_eq!(reader_imports_to_import_statement(&forwards), expected);
    assert_eq!(reader_imports_to_import_statement(&backwards), expected);
}

#[test]
fn each_block_takes_the_imports_of_its_own_kind() {
    let mut imports = ImportSet::new();
    imports.insert(output_type_of("User", "avatar"));
    imports.insert(reader_of("User", "avatar"));
    imports.insert(reader_of("Pet", "name"));
    assert_eq!(imports.len(), 3);
    let (reader_block, param_type_block) = nested_client_field_names_to_import_statement(&imports);
    assert_eq!(
        reader_block,
        "import Pet__name from '../../Pet/name/reader';\n\
         import User__avatar from '../../User/avatar/reader';\n"
    );
    assert_eq!(
        param_type_block,
        "import { User__avatar__output_type } from '../../User/avatar/output_type';\n"
    );
    assert_eq!(reader_imports_to_import_statement(&imports), reader_block);
    assert_eq!(param_type_imports_to_import_statement(&imports), param_type_block);
    assert_eq!(imports.import_statements(ImportedFileCategory::OutputType), param_type_block);
}

#[test]
fn merging_keeps_each_requirement_once() {
    let mut left = ImportSet::new();
    left.insert(reader_of("User", "avatar"));
    left.insert(reader_of("Pet", "name"));
    let mut right = ImportSet::new();
    right.insert(reader_of("User", "avatar"));
    right.insert(reader_of("Admin", "rights"));
    left.merge(&right);
    assert_eq!(left.len(), 3);
    assert_eq!(right.len(), 2);
    assert_eq!(
        reader_imports_to_import_statement(&left),
        "import Admin__rights from '../../Admin/rights/reader';\n\
         import Pet__name from '../../Pet/name/reader';\n\
         import User__avatar from '../../User/avatar/reader';\n"
    );
}

#[test]
fn merging_a_set_into_itself_changes_nothing() {
    let mut imports = ImportSet::new();
    imports.insert(reader_of("User", "avatar"));
    imports.insert(output_type_of("User", "avatar"));
    let mut copy = ImportSet::new();
    copy.merge(&imports);
    copy.merge(&imports);
    assert_eq!(copy.len(), 2);
    assert_eq!(
        reader_imports_to_import_statement(&copy),
        reader_imports_to_import_statement(&imports)
    );
}

#[test]
fn imports_are_ordered_by_type_then_field() {
    let mut imports = ImportSet::new();
    imports.insert(reader_of("B", "a"));
    imports.insert(reader_of("A", "b"));
    imports.insert(reader_of("A", "ab"));
    imports.insert(reader_of("A", "a"));
    imports.insert(reader_of("AB", "a"));
    assert_eq!(
        reader_imports_to_import_statement(&imports),
        "import A__a from '../../A/a/reader';\n\
         import A__ab from '../../A/ab/reader';\n\
         import A__b from '../../A/b/reader';\n\
         import AB__a from '../../AB/a/reader';\n\
         import B__a from '../../B/a/reader';\n"
    );
}

#[test]
fn names_and_paths_of_a_field() {
    let avatar = field("User", "avatar");
    assert_eq!(avatar.underscore_separated(), "User__avatar");
    assert_eq!(avatar.relative_path(ArtifactFileType::Reader), "../../User/avatar/reader");
    assert_eq!(avatar.relative_path(ArtifactFileType::ParamType), "../../User/avatar/param_type");
    assert_eq!(
        avatar.relative_path(ArtifactFileType::OutputType),
        "../../User/avatar/output_type"
    );
}

#[test]
fn texts_are_ordered_byte_by_byte() {
    assert_eq!(text_order("a", "b"), TextOrder::Before);
    assert_eq!(text_order("b", "a"), TextOrder::After);
    assert_eq!(text_order("abc", "abc"), TextOrder::Same);
    assert_eq!(text_order("", ""), TextOrder::Same);
    assert_eq!(text_order("", "a"), TextOrder::Before);
    assert_eq!(text_order("ab", "abc"), TextOrder::Before);
    assert_eq!(text_order("abc", "ab"), TextOrder::After);
    assert_eq!(text_order("Z", "a"), TextOrder::Before);
    assert_eq!(text_order("z", "\u{e9}"), TextOrder::Before);
    assert_eq!(text_order("\u{e9}", "\u{4e2d}"), TextOrder::Before);
}

#[test]
fn text_order_agrees_with_the_order_of_strings() {
    let samples = ["", "a", "ab", "b", "User", "Usher", "\u{e9}t\u{e9}", "\u{1f600}", "~"];
    for a in samples {
        for b in samples {
            let expected = if a < b {
                TextOrder::Before
            } else if a == b {
                TextOrder::Same
            } else {
                TextOrder::After
            };
            assert_eq!(text_order(a, b), expected);
        }
    }
}

#[test]
fn both_imports_of_one_field_are_kept_apart() {
    let mut imports = ImportSet::new();
    assert!(imports.insert(output_type_of("User", "avatar")));
    assert!(imports.insert(reader_of("User", "avatar")));
    assert!(!imports.insert(output_type_of("User", "avatar")));
    assert_eq!(imports.len(), 2);
    assert_eq!(
        imports.import_statements(ImportedFileCategory::ResolverReader),
        "import User__avatar from '../../User/avatar/reader';\n"
    );
    assert_eq!(
        imports.import_statements(ImportedFileCategory::OutputType),
        "import { User__avatar__output_type } from '../../User/avatar/output_type';\n"
    );
}
