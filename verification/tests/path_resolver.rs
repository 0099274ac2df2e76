use graphql_artifact_generation::generate_artifacts::{
    generate_path, reader_output_type, reader_param_type, ArtifactFileType,
    ArtifactGenerationError,
};
use graphql_artifact_generation::artifact_file_contents::{
    get_output_type_module_text, get_output_type_text, get_param_type_text, get_reader_text,
    ReaderArtifactKind,
};
use graphql_artifact_generation::generate_artifacts::{
    ClientFieldFunctionImportStatement, ClientFieldOutputType, ClientFieldParameterType, ReaderAst,
};
use graphql_artifact_generation::path_resolver::{
    function_import_statement, generate_function_import_statement, import_path_for_source,
    strip_extension,
};
use graphql_artifact_generation::schema::{
    ObjectId, SchemaObject, ServerFieldData, UserWrittenClientFieldInfo,
    UserWrittenComponentVariant, ValidatedSchema,
};
use graphql_artifact_generation::string_key_newtype::{
    ConstExportName, FilePath, IsographObjectTypeName, SelectableFieldName, StringKeyNewtype,
};

fn user() -> IsographObjectTypeName {
    IsographObjectTypeName("User".to_string())
}

fn display_name() -> SelectableFieldName {
    SelectableFieldName("displayName".to_string())
}

fn is_string_key<T: StringKeyNewtype>(_key: &T) -> bool {
    true
}

#[test]
fn import_path_leads_out_of_the_artifact_directory() {
    assert_eq!(
        import_path_for_source("/project", "/project/__isograph", "src/resolvers/displayName.ts"),
        Ok("../../../src/resolvers/displayName".to_string())
    );
}

#[test]
fn import_path_of_a_file_without_extension_is_kept_whole() {
    assert_eq!(
        import_path_for_source("/project", "/project/__isograph", "src/resolver"),
        Ok("../../../src/resolver".to_string())
    );
}

#[test]
fn import_path_loses_only_the_last_extension() {
    assert_eq!(
        import_path_for_source("/project", "/project/__isograph", "src/avatar.component.tsx"),
        Ok("../../../src/avatar.component".to_string())
    );
}

#[test]
fn import_path_from_a_deeper_artifact_directory() {
    assert_eq!(
        import_path_for_source("/project", "/project/generated/__isograph", "src/a.ts"),
        Ok("../../../../src/a".to_string())
    );
    assert_eq!(
        import_path_for_source("/project/app", "/project/artifacts", "src/a.ts"),
        Ok("../../../app/src/a".to_string())
    );
}

#[test]
fn import_path_between_relative_directories() {
    assert_eq!(
        import_path_for_source("project", "project/__isograph", "src/a.ts"),
        Ok("../../../src/a".to_string())
    );
}

#[test]
fn import_path_with_characters_of_several_bytes() {
    assert_eq!(
        import_path_for_source("/projet", "/projet/__isograph", "src/r\u{e9}sum\u{e9}.ts"),
        Ok("../../../src/r\u{e9}sum\u{e9}".to_string())
    );
}

#[test]
fn no_import_path_from_an_absolute_directory_to_a_relative_file() {
    assert_eq!(
        import_path_for_source("project", "/elsewhere/__isograph", "src/a.ts"),
        Err(ArtifactGenerationError::NoRelativePath)
    );
}

#[test]
fn absolute_source_file_replaces_the_project_root() {
    assert_eq!(
        import_path_for_source("/project", "/project/__isograph", "/other/src/a.ts"),
        Ok("../../../../other/src/a".to_string())
    );
}

#[test]
fn extension_is_stripped_with_its_dot() {
    assert_eq!(strip_extension("src/a.ts", Some(2)), Some("src/a".to_string()));
    assert_eq!(strip_extension("src/a.ts", None), Some("src/a.ts".to_string()));
    assert_eq!(strip_extension("a.b", Some(1)), Some("a".to_string()));
    assert_eq!(strip_extension(".b", Some(1)), Some("".to_string()));
    assert_eq!(strip_extension("a.", Some(0)), Some("a".to_string()));
}

#[test]
fn extension_longer_than_the_path_cannot_be_stripped() {
    assert_eq!(strip_extension("ts", Some(2)), None);
    assert_eq!(strip_extension("", Some(0)), None);
    assert_eq!(strip_extension("a.ts", Some(usize::MAX)), None);
}

#[test]
fn extension_is_not_stripped_inside_a_character() {
    assert_eq!(strip_extension("\u{e9}", Some(0)), None);
    assert_eq!(strip_extension("a.\u{e9}", Some(2)), Some("a".to_string()));
    assert_eq!(strip_extension("a\u{e9}", Some(0)), None);
    assert_eq!(strip_extension("\u{e9}\u{e9}", Some(2)), None);
}

#[test]
fn function_is_imported_as_resolver() {
    let statement = function_import_statement(
        &ConstExportName("displayName".to_string()),
        "../../../src/resolvers/displayName",
    );
    assert_eq!(
        statement.0,
        "import { displayName as resolver } from '../../../src/resolvers/displayName';"
    );
}

#[test]
fn function_import_statement_is_generated_from_the_source_file() {
    let info = UserWrittenClientFieldInfo {
        const_export_name: ConstExportName("Avatar".to_string()),
        file_path: FilePath("src/components/avatar.tsx".to_string()),
        user_written_component_variant: UserWrittenComponentVariant::Component,
    };
    let statement =
        generate_function_import_statement("/project", "/project/__isograph", &info).unwrap();
    assert_eq!(
        statement.0,
        "import { Avatar as resolver } from '../../../src/components/avatar';"
    );
    let failed = generate_function_import_statement("project", "/project/__isograph", &info);
    assert_eq!(failed.unwrap_err(), ArtifactGenerationError::NoRelativePath);
}

#[test]
fn directory_and_type_names_are_derived_from_type_and_field() {
    assert_eq!(generate_path(&user(), &display_name()), "User/displayName");
    assert_eq!(reader_param_type(&user(), &display_name()), "User__displayName__param");
    assert_eq!(reader_output_type(&user(), &display_name()), "User__displayName__output_type");
}

#[test]
fn same_type_and_field_give_the_same_directory() {
    assert_eq!(
        generate_path(&user(), &display_name()),
        generate_path(&user(), &display_name())
    );
    assert_ne!(
        generate_path(&user(), &display_name()),
        generate_path(&user(), &SelectableFieldName("displayNam".to_string()))
    );
}

#[test]
fn file_types_and_kinds_have_their_names() {
    assert_eq!(ArtifactFileType::Reader.lookup(), "reader");
    assert_eq!(ArtifactFileType::ParamType.lookup(), "param_type");
    assert_eq!(ArtifactFileType::OutputType.lookup(), "output_type");
    assert_eq!(ReaderArtifactKind::Eager.kind_name(), "EagerReaderArtifact");
    assert_eq!(ReaderArtifactKind::Component.kind_name(), "ComponentReaderArtifact");
    assert_eq!(ReaderArtifactKind::Refetch.kind_name(), "RefetchReaderArtifact");
}

#[test]
fn string_keys_keep_their_text() {
    let name = SelectableFieldName::from("displayName".to_string());
    assert_eq!(name.lookup(), "displayName");
    assert!(is_string_key(&name));
    let object = IsographObjectTypeName::from("User".to_string());
    assert_eq!(object.lookup(), "User");
    assert!(is_string_key(&object));
    let export = ConstExportName::from("Avatar".to_string());
    assert_eq!(export.lookup(), "Avatar");
    assert!(is_string_key(&export));
    let path = FilePath::from("src/a.ts".to_string());
    assert_eq!(path.lookup(), "src/a.ts");
    assert!(is_string_key(&path));
}

#[test]
fn schema_resolves_object_types_by_identifier() {
    let schema = ValidatedSchema {
        server_field_data: ServerFieldData {
            objects: vec![SchemaObject { name: user() }],
        },
    };
    assert_eq!(schema.object(ObjectId(0)).map(|object| object.name.lookup()), Some("User"));
    assert!(schema.object(ObjectId(1)).is_none());
}

#[test]
fn output_type_text_declares_the_output_type() {
    let statement = ClientFieldFunctionImportStatement("import { f as resolver } from './f';".to_string());
    let output_type = ClientFieldOutputType("number".to_string());
    assert_eq!(
        get_output_type_text(&statement, &user(), &display_name(), &output_type),
        "import { f as resolver } from './f';\nexport type User__displayName__output_type = number;"
    );
    assert_eq!(
        get_output_type_module_text(
            ReaderArtifactKind::Refetch,
            &statement,
            &user(),
            &display_name(),
            &output_type
        ),
        "import { RefetchQueryNormalizationArtifact } from '@isograph/react';\n\
         import { f as resolver } from './f';\nexport type User__displayName__output_type = number;"
    );
}

#[test]
fn modules_agree_on_the_parameter_type() {
    let statement = ClientFieldFunctionImportStatement("import { f as resolver } from './f';".to_string());
    for kind in [ReaderArtifactKind::Eager, ReaderArtifactKind::Component, ReaderArtifactKind::Refetch] {
        let reader = get_reader_text(
            kind,
            &user(),
            &display_name(),
            &statement,
            "",
            &ReaderAst("[]".to_string()),
        );
        let param_type = get_param_type_text(
            &user(),
            &display_name(),
            "",
            &ClientFieldParameterType("{}".to_string()),
        );
        let symbol = reader_param_type(&user(), &display_name());
        assert!(reader.contains(&format!("import {{ {symbol} }} from './param_type';\n")));
        assert!(param_type.contains(&format!("export type {symbol} = ")));
    }
}

#[test]
fn modules_agree_on_the_output_type() {
    let statement = ClientFieldFunctionImportStatement("import { f as resolver } from './f';".to_string());
    let output_type = ClientFieldOutputType("number".to_string());
    let symbol = reader_output_type(&user(), &display_name());
    let reader = get_reader_text(
        ReaderArtifactKind::Eager,
        &user(),
        &display_name(),
        &statement,
        "",
        &ReaderAst("[]".to_string()),
    );
    assert!(reader.contains(&format!("import {{ {symbol} }} from './output_type';\n")));
    for kind in [ReaderArtifactKind::Eager, ReaderArtifactKind::Refetch] {
        let module =
            get_output_type_module_text(kind, &statement, &user(), &display_name(), &output_type);
        assert!(module.contains(&format!("export type {symbol} = ")));
    }
    let component = get_output_type_module_text(
        ReaderArtifactKind::Component,
        &statement,
        &user(),
        &display_name(),
        &output_type,
    );
    assert!(!component.contains(&symbol));
}
