use graphql_artifact_generation::eager_reader_artifact::{
    generate_eager_reader_artifact, EagerReaderArtifactInfo,
};
use graphql_artifact_generation::generate_artifacts::{
    ArtifactFileType, ArtifactGenerationError, ArtifactPathAndContent,
    ClientFieldFunctionImportStatement, ClientFieldOutputType, ClientFieldParameterType, ReaderAst,
};
use graphql_artifact_generation::import_statements::{
    ImportRequirement, ImportSet, ImportedFileCategory, ObjectTypeAndFieldName,
};
use graphql_artifact_generation::schema::{
    ObjectId, SchemaObject, SelectionSetWalk, ServerFieldData, UserWrittenClientFieldInfo,
    UserWrittenComponentVariant, ValidatedClientField, ValidatedSchema,
};
use graphql_artifact_generation::string_key_newtype::{
    ConstExportName, FilePath, IsographObjectTypeName, SelectableFieldName,
};

fn schema() -> ValidatedSchema {
    ValidatedSchema {
        server_field_data: ServerFieldData {
            objects: vec![
                SchemaObject { name: IsographObjectTypeName("Query".to_string()) },
                SchemaObject { name: IsographObjectTypeName("User".to_string()) },
            ],
        },
    }
}

fn requirement(object: &str, field: &str, category: ImportedFileCategory) -> ImportRequirement {
    ImportRequirement {
        type_and_field: ObjectTypeAndFieldName {
            object_name: IsographObjectTypeName(object.to_string()),
            field_name: SelectableFieldName(field.to_string()),
        },
        category,
    }
}

fn walk() -> SelectionSetWalk {
    SelectionSetWalk {
        reader_ast: ReaderAst("[]".to_string()),
        reader_imports: ImportSet::new(),
        client_field_parameter_type: ClientFieldParameterType("{ name: string }".to_string()),
        param_type_imports: ImportSet::new(),
    }
}

fn display_name(selection_set: Option<SelectionSetWalk>) -> ValidatedClientField {
    ValidatedClientField {
        name: SelectableFieldName("displayName".to_string()),
        parent_object_id: ObjectId(1),
        selection_set,
        output_type: ClientFieldOutputType("ReturnType<typeof resolver>".to_string()),
    }
}

fn info(variant: UserWrittenComponentVariant) -> UserWrittenClientFieldInfo {
    UserWrittenClientFieldInfo {
        const_export_name: ConstExportName("displayName".to_string()),
        file_path: FilePath("src/resolvers/displayName.ts".to_string()),
        user_written_component_variant: variant,
    }
}

fn generate(
    client_field: &ValidatedClientField,
    variant: UserWrittenComponentVariant,
) -> Result<Vec<ArtifactPathAndContent>, ArtifactGenerationError> {
    generate_eager_reader_artifact(
        &schema(),
        client_field,
        "/project",
        "/project/__isograph",
        info(variant),
    )
}

const EAGER_READER: &str = "import type {EagerReaderArtifact, ReaderAst, RefetchQueryNormalizationArtifact} from '@isograph/react';
import { User__displayName__param } from './param_type';
import { User__displayName__output_type } from './output_type';
import { displayName as resolver } from '../../../src/resolvers/displayName';

const readerAst: ReaderAst<User__displayName__param> = [];

const artifact: EagerReaderArtifact<
  User__displayName__param,
  User__displayName__output_type
> = {
  kind: \"EagerReaderArtifact\",
  resolver,
  readerAst,
};

export default artifact;
";

const COMPONENT_READER: &str = "import type {ComponentReaderArtifact, ExtractSecondParam, ReaderAst, RefetchQueryNormalizationArtifact} from '@isograph/react';
import { User__displayName__param } from './param_type';
import { displayName as resolver } from '../../../src/resolvers/displayName';

const readerAst: ReaderAst<User__displayName__param> = [];

const artifact: ComponentReaderArtifact<
  User__displayName__param,
  ExtractSecondParam<typeof resolver>
> = {
  kind: \"ComponentReaderArtifact\",
  componentName: \"User.displayName\",
  resolver,
  readerAst,
};

export default artifact;
";

#[test]
fn eager_field_yields_reader_param_type_and_output_type() {
    let artifacts = generate(&display_name(Some(walk())), UserWrittenComponentVariant::Eager)
        .expect("a field with a selection set is generated");
    assert_eq!(artifacts.len(), 3);
    for artifact in &artifacts {
        assert_eq!(artifact.relative_directory, "User/displayName");
    }
    assert_eq!(artifacts[0].file_name_prefix, ArtifactFileType::Reader);
    assert_eq!(artifacts[1].file_name_prefix, ArtifactFileType::ParamType);
    assert_eq!(artifacts[2].file_name_prefix, ArtifactFileType::OutputType);
    assert_eq!(artifacts[0].file_name_prefix.lookup(), "reader");
    assert_eq!(artifacts[1].file_name_prefix.lookup(), "param_type");
    assert_eq!(artifacts[2].file_name_prefix.lookup(), "output_type");
    assert!(artifacts[1]
        .file_content
        .contains("export type User__displayName__param = { name: string };"));
    assert!(artifacts[0].file_content.contains("kind: \"EagerReaderArtifact\""));
    assert!(artifacts[0]
        .file_content
        .contains("import { User__displayName__param } from './param_type';"));
}

#[test]
fn eager_field_modules_are_rendered_exactly() {
    let artifacts =
        generate(&display_name(Some(walk())), UserWrittenComponentVariant::Eager).unwrap();
    assert_eq!(artifacts[0].file_content, EAGER_READER);
    assert_eq!(
        artifacts[1].file_content,
        "\nexport type User__displayName__param = { name: string };\n"
    );
    assert_eq!(
        artifacts[2].file_content,
        "import { displayName as resolver } from '../../../src/resolvers/displayName';\n\
         export type User__displayName__output_type = ReturnType<typeof resolver>;"
    );
}

#[test]
fn component_field_is_tagged_and_named() {
    let artifacts =
        generate(&display_name(Some(walk())), UserWrittenComponentVariant::Component).unwrap();
    assert_eq!(artifacts.len(), 3);
    assert_eq!(artifacts[0].file_content, COMPONENT_READER);
    assert!(artifacts[0].file_content.contains("kind: \"ComponentReaderArtifact\""));
    assert!(artifacts[0].file_content.contains("componentName: \"User.displayName\""));
    assert!(!artifacts[0].file_content.contains("User__displayName__output_type"));
}

#[test]
fn component_output_type_hands_on_the_helper() {
    let artifacts =
        generate(&display_name(Some(walk())), UserWrittenComponentVariant::Component).unwrap();
    assert_eq!(
        artifacts[2].file_content,
        "import type {ExtractSecondParam, RefetchQueryNormalizationArtifact} from '@isograph/react';\n\
         import { displayName as resolver } from '../../../src/resolvers/displayName';\n\
         export type {ExtractSecondParam};\n"
    );
    assert!(!artifacts[2].file_content.contains("User__displayName__output_type"));
}

#[test]
fn eager_reader_has_no_component_name() {
    let artifacts =
        generate(&display_name(Some(walk())), UserWrittenComponentVariant::Eager).unwrap();
    assert!(!artifacts[0].file_content.contains("componentName"));
    assert!(!artifacts[0].file_content.contains("ComponentReaderArtifact"));
}

#[test]
fn field_without_selection_set_is_refused() {
    let result = generate(&display_name(None), UserWrittenComponentVariant::Eager);
    assert_eq!(result.unwrap_err(), ArtifactGenerationError::MissingSelectionSet);
    let result = generate(&display_name(None), UserWrittenComponentVariant::Component);
    assert_eq!(result.unwrap_err(), ArtifactGenerationError::MissingSelectionSet);
}

#[test]
fn missing_selection_set_comes_before_every_other_error() {
    let mut client_field = display_name(None);
    client_field.parent_object_id = ObjectId(7);
    let result = generate_eager_reader_artifact(
        &schema(),
        &client_field,
        "project",
        "/elsewhere/__isograph",
        info(UserWrittenComponentVariant::Eager),
    );
    assert_eq!(result.unwrap_err(), ArtifactGenerationError::MissingSelectionSet);
}

#[test]
fn unknown_parent_type_is_refused() {
    let mut client_field = display_name(Some(walk()));
    client_field.parent_object_id = ObjectId(2);
    let result = generate(&client_field, UserWrittenComponentVariant::Eager);
    assert_eq!(result.unwrap_err(), ArtifactGenerationError::UnknownParentType);
}

#[test]
fn unreachable_source_file_is_refused() {
    let result = generate_eager_reader_artifact(
        &schema(),
        &display_name(Some(walk())),
        "project",
        "/elsewhere/__isograph",
        info(UserWrittenComponentVariant::Eager),
    );
    assert_eq!(result.unwrap_err(), ArtifactGenerationError::NoRelativePath);
}

#[test]
fn generating_twice_gives_the_same_artifacts() {
    let client_field = display_name(Some(walk()));
    let first = generate(&client_field, UserWrittenComponentVariant::Eager).unwrap();
    let second = generate(&client_field, UserWrittenComponentVariant::Eager).unwrap();
    assert_eq!(first.len(), second.len());
    for (a, b) in first.iter().zip(second.iter()) {
        assert_eq!(a.relative_directory, b.relative_directory);
        assert_eq!(a.file_name_prefix, b.file_name_prefix);
        assert_eq!(a.file_content, b.file_content);
    }
}

#[test]
fn fields_of_one_type_get_different_directories() {
    let mut other = display_name(Some(walk()));
    other.name = SelectableFieldName("avatar".to_string());
    let first = generate(&display_name(Some(walk())), UserWrittenComponentVariant::Eager).unwrap();
    let second = generate(&other, UserWrittenComponentVariant::Eager).unwrap();
    assert_eq!(first[0].relative_directory, "User/displayName");
    assert_eq!(second[0].relative_directory, "User/avatar");
    assert_ne!(first[0].relative_directory, second[0].relative_directory);
}

#[test]
fn imports_of_the_walk_are_written_into_their_modules() {
    let mut walk = walk();
    walk.reader_imports.insert(requirement("User", "avatar", ImportedFileCategory::ResolverReader));
    walk.reader_imports.insert(requirement("Query", "viewer", ImportedFileCategory::ResolverReader));
    walk.param_type_imports.insert(requirement("User", "avatar", ImportedFileCategory::OutputType));
    let artifacts =
        generate(&display_name(Some(walk)), UserWrittenComponentVariant::Eager).unwrap();
    assert!(artifacts[0].file_content.contains(
        "import { displayName as resolver } from '../../../src/resolvers/displayName';\n\
         import Query__viewer from '../../Query/viewer/reader';\n\
         import User__avatar from '../../User/avatar/reader';\n\
         \n\
         const readerAst"
    ));
    assert_eq!(
        artifacts[1].file_content,
        "import { User__avatar__output_type } from '../../User/avatar/output_type';\n\
         \n\
         export type User__displayName__param = { name: string };\n"
    );
}

#[test]
fn info_renders_into_a_given_directory() {
    let parent_type = SchemaObject { name: IsographObjectTypeName("User".to_string()) };
    let client_field_name = SelectableFieldName("displayName".to_string());
    let walk = walk();
    let output_type = ClientFieldOutputType("string".to_string());
    let info = EagerReaderArtifactInfo {
        parent_type: &parent_type,
        client_field_name: &client_field_name,
        reader_imports: &walk.reader_imports,
        param_type_imports: &walk.param_type_imports,
        client_field_output_type: &output_type,
        reader_ast: &walk.reader_ast,
        client_field_parameter_type: &walk.client_field_parameter_type,
        function_import_statement: ClientFieldFunctionImportStatement(
            "import { displayName as resolver } from '../../../src/resolvers/displayName';"
                .to_string(),
        ),
        user_written_component_variant: UserWrittenComponentVariant::Eager,
    };
    let artifacts = info.file_contents("somewhere/else");
    assert_eq!(artifacts.len(), 3);
    assert_eq!(artifacts[0].relative_directory, "somewhere/else");
    assert_eq!(artifacts[0].file_content, EAGER_READER);
    assert_eq!(
        artifacts[2].file_content,
        "import { displayName as resolver } from '../../../src/resolvers/displayName';\n\
         export type User__displayName__output_type = string;"
    );
}
