//! The artifacts of a client field that is read in place: a plain resolver or
//! a UI component.

use crate::artifact_file_contents::{
    get_output_type_module_text, get_param_type_text, get_reader_text, reader_artifacts,
    ReaderArtifactKind,
};
use crate::generate_artifacts::{
    artifact_texts, generate_path, relative_directory_of, ArtifactFileType,
    ArtifactGenerationError, ArtifactPathAndContent, ArtifactText,
    ClientFieldFunctionImportStatement, ClientFieldOutputType, ClientFieldParameterType, ReaderAst,
};
use crate::import_statements::{
    param_type_imports_to_import_statement, reader_imports_to_import_statement, ParamTypeImports,
    ReaderImports,
};
use crate::path_resolver::{function_import_of, generate_function_import_statement};
use crate::schema::{
    object_name_in, ClientFieldInfoText, ClientFieldText, SchemaObject,
    UserWrittenClientFieldInfo, UserWrittenComponentVariant, ValidatedClientField,
    ValidatedSchema,
};
use crate::string_key_newtype::SelectableFieldName;
use vstd::prelude::*;

verus! {

/// The kind of reader that is generated for a function written as `variant`.
pub open spec fn reader_kind_of(variant: UserWrittenComponentVariant) -> ReaderArtifactKind {
    match variant {
        UserWrittenComponentVariant::Eager => ReaderArtifactKind::Eager,
        UserWrittenComponentVariant::Component => ReaderArtifactKind::Component,
    }
}

/// A list of artifacts or an error, with the artifacts as plain text.
pub open spec fn artifacts_result(
    result: Result<Vec<ArtifactPathAndContent>, ArtifactGenerationError>,
) -> Result<Seq<ArtifactText>, ArtifactGenerationError> {
    match result {
        Ok(artifacts) => Ok(artifact_texts(artifacts@)),
        Err(error) => Err(error),
    }
}

/// What is generated for a client field that is read in place. A field
/// without a selection set yields nothing but the error that says so; after
/// that the parent type must be in the schema, and the source file must be
/// reachable from the artifact's directory.
pub open spec fn eager_reader_artifact_of(
    object_names: Seq<Seq<char>>,
    client_field: ClientFieldText,
    project_root: Seq<char>,
    artifact_directory: Seq<char>,
    info: ClientFieldInfoText,
) -> Result<Seq<ArtifactText>, ArtifactGenerationError> {
    match client_field.selection_set {
        None => Err(ArtifactGenerationError::MissingSelectionSet),
        Some(walk) => match object_name_in(object_names, client_field.parent_object_id) {
            None => Err(ArtifactGenerationError::UnknownParentType),
            Some(parent_name) => match function_import_of(
                project_root,
                artifact_directory,
                info.const_export_name,
                info.file_path,
            ) {
                Err(error) => Err(error),
                Ok(function_import_statement) => Ok(
                    reader_artifacts(
                        reader_kind_of(info.user_written_component_variant),
                        relative_directory_of(parent_name, client_field.name),
                        parent_name,
                        client_field.name,
                        function_import_statement,
                        walk.reader_imports,
                        walk.param_type_imports,
                        walk.reader_ast,
                        walk.client_field_parameter_type,
                        client_field.output_type,
                    ),
                ),
            },
        },
    }
}

/// Generation has no hidden input. Two runs on inputs that hold the same
/// text end alike: with the same error, or with the same artifacts in the
/// same order, equal in directory, file type and content.
pub proof fn lemma_eager_generation_is_deterministic(
    first: Result<Vec<ArtifactPathAndContent>, ArtifactGenerationError>,
    second: Result<Vec<ArtifactPathAndContent>, ArtifactGenerationError>,
    object_names: Seq<Seq<char>>,
    client_field: ClientFieldText,
    project_root: Seq<char>,
    artifact_directory: Seq<char>,
    info: ClientFieldInfoText,
)
    requires
        artifacts_result(first) == eager_reader_artifact_of(
            object_names,
            client_field,
            project_root,
            artifact_directory,
            info,
        ),
        artifacts_result(second) == eager_reader_artifact_of(
            object_names,
            client_field,
            project_root,
            artifact_directory,
            info,
        ),
    ensures
        artifacts_result(first) == artifacts_result(second),
        first matches Ok(a) ==> second matches Ok(b) && a@.len() == b@.len() && forall|i: int|
            0 <= i < a@.len() ==> a@[i]@ == b@[i]@,
        first matches Err(e) ==> second matches Err(f) && e == f,
{
    if let Ok(a) = first {
        let b = second->Ok_0;
        assert(artifact_texts(a@) == artifact_texts(b@));
        assert(artifact_texts(a@).len() == a@.len());
        assert(artifact_texts(b@).len() == b@.len());
        assert forall|i: int| 0 <= i < a@.len() implies a@[i]@ == b@[i]@ by {
            assert(artifact_texts(a@)[i] == a@[i]@);
            assert(artifact_texts(b@)[i] == b@[i]@);
        }
    }
}

/// Everything that the three modules of one client field are rendered from.
#[derive(Debug)]
pub struct EagerReaderArtifactInfo<'schema> {
    pub parent_type: &'schema SchemaObject,
    pub client_field_name: &'schema SelectableFieldName,
    pub reader_imports: &'schema ReaderImports,
    pub param_type_imports: &'schema ParamTypeImports,
    pub client_field_output_type: &'schema ClientFieldOutputType,
    pub reader_ast: &'schema ReaderAst,
    pub client_field_parameter_type: &'schema ClientFieldParameterType,
    pub function_import_statement: ClientFieldFunctionImportStatement,
    pub user_written_component_variant: UserWrittenComponentVariant,
}

impl<'schema> EagerReaderArtifactInfo<'schema> {
    /// The three artifacts, written to `relative_directory`.
    pub open spec fn artifacts_in(&self, relative_directory: Seq<char>) -> Seq<ArtifactText> {
        reader_artifacts(
            reader_kind_of(self.user_written_component_variant),
            relative_directory,
            self.parent_type.name@,
            self.client_field_name@,
            self.function_import_statement@,
            self.reader_imports@,
            self.param_type_imports@,
            self.reader_ast@,
            self.client_field_parameter_type@,
            self.client_field_output_type@,
        )
    }

    /// The three artifacts, in the directory of the client field.
    pub fn path_and_content(self) -> (artifacts: Vec<ArtifactPathAndContent>)
        ensures
            artifact_texts(artifacts@) == self.artifacts_in(
                relative_directory_of(self.parent_type.name@, self.client_field_name@),
            ),
    {
        let relative_directory = generate_path(&self.parent_type.name, self.client_field_name);
        self.file_contents(relative_directory.as_str())
    }

    /// The three artifacts, in the given directory: the reader module, the
    /// parameter-type module and the output-type module.
    pub fn file_contents(self, relative_directory: &str) -> (artifacts: Vec<ArtifactPathAndContent>)
        ensures
            artifact_texts(artifacts@) == self.artifacts_in(relative_directory@),
    {
        let reader_import_statement = reader_imports_to_import_statement(self.reader_imports);
        let param_type_import_statement = param_type_imports_to_import_statement(
            self.param_type_imports,
        );
        let kind = match self.user_written_component_variant {
            UserWrittenComponentVariant::Eager => ReaderArtifactKind::Eager,
            UserWrittenComponentVariant::Component => ReaderArtifactKind::Component,
        };
        let reader_content = get_reader_text(
            kind,
            &self.parent_type.name,
            self.client_field_name,
            &self.function_import_statement,
            reader_import_statement.as_str(),
            self.reader_ast,
        );
        let param_type_content = get_param_type_text(
            &self.parent_type.name,
            self.client_field_name,
            param_type_import_statement.as_str(),
            self.client_field_parameter_type,
        );
        let final_output_type_text = get_output_type_module_text(
            kind,
            &self.function_import_statement,
            &self.parent_type.name,
            self.client_field_name,
            self.client_field_output_type,
        );
        let mut artifacts: Vec<ArtifactPathAndContent> = Vec::new();
        artifacts.push(
            ArtifactPathAndContent {
                relative_directory: String::from_str(relative_directory),
                file_name_prefix: ArtifactFileType::Reader,
                file_content: reader_content,
            },
        );
        artifacts.push(
            ArtifactPathAndContent {
                relative_directory: String::from_str(relative_directory),
                file_name_prefix: ArtifactFileType::ParamType,
                file_content: param_type_content,
            },
        );
        artifacts.push(
            ArtifactPathAndContent {
                relative_directory: String::from_str(relative_directory),
                file_name_prefix: ArtifactFileType::OutputType,
                file_content: final_output_type_text,
            },
        );
        assert(artifact_texts(artifacts@) =~= self.artifacts_in(relative_directory@));
        artifacts
    }
}

/// Generates the three artifacts of a client field that is read in place.
///
/// A client field without a selection set is refused with
/// [`ArtifactGenerationError::MissingSelectionSet`], whatever else holds.
pub fn generate_eager_reader_artifact(
    schema: &ValidatedSchema,
    client_field: &ValidatedClientField,
    project_root: &str,
    artifact_directory: &str,
    info: UserWrittenClientFieldInfo,
) -> (artifacts: Result<Vec<ArtifactPathAndContent>, ArtifactGenerationError>)
    ensures
        artifacts_result(artifacts) == eager_reader_artifact_of(
            schema@,
            client_field@,
            project_root@,
            artifact_directory@,
            info@,
        ),
        client_field.selection_set is None <==> artifacts_result(artifacts) == Err::<
            Seq<ArtifactText>,
            ArtifactGenerationError,
        >(ArtifactGenerationError::MissingSelectionSet),
        artifacts matches Ok(list) ==> list@.len() == 3,
{
    let walk = match &client_field.selection_set {
        Some(walk) => walk,
        None => {
            return Err(ArtifactGenerationError::MissingSelectionSet);
        },
    };
    let parent_type = match schema.object(client_field.parent_object_id) {
        Some(parent_type) => parent_type,
        None => {
            return Err(ArtifactGenerationError::UnknownParentType);
        },
    };
    let function_import_statement = match generate_function_import_statement(
        project_root,
        artifact_directory,
        &info,
    ) {
        Ok(function_import_statement) => function_import_statement,
        Err(error) => {
            return Err(error);
        },
    };
    let artifacts = EagerReaderArtifactInfo {
        parent_type,
        client_field_name: &client_field.name,
        reader_ast: &walk.reader_ast,
        reader_imports: &walk.reader_imports,
        function_import_statement,
        client_field_output_type: &client_field.output_type,
        client_field_parameter_type: &walk.client_field_parameter_type,
        user_written_component_variant: info.user_written_component_variant,
        param_type_imports: &walk.param_type_imports,
    }.path_and_content();
    assert(artifact_texts(artifacts@).len() == 3);
    Ok(artifacts)
}

} // verus!
