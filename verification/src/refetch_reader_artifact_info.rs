//! The artifacts of a client field that is read behind a refetchable query.

use crate::artifact_file_contents::{
    get_output_type_module_text, get_param_type_text, get_reader_text, reader_artifacts,
    ReaderArtifactKind,
};
use crate::generate_artifacts::{
    artifact_texts, generate_path, relative_directory_of, ArtifactFileType,
    ArtifactGenerationError, ArtifactPathAndContent, ArtifactText,
    ClientFieldFunctionImportStatement, ClientFieldOutputType, ClientFieldParameterType, ReaderAst,
};
use crate::import_statements::{
    lemma_sorted_entries_unique, merged_imports, nested_client_field_names_to_import_statement,
    ImportKey, ImportSet, NestedClientFieldImports,
};
use crate::schema::{
    object_name_in, ClientFieldText, SchemaObject, ValidatedClientField, ValidatedSchema,
};
use crate::string_key_newtype::SelectableFieldName;
use vstd::prelude::*;

verus! {

/// Everything that the three modules of one client field are rendered from.
/// The imports of the reader module and of the parameter-type module stand
/// in one set.
#[derive(Debug)]
pub struct RefetchReaderArtifactInfo<'schema> {
    pub parent_type: &'schema SchemaObject,
    pub client_field_name: &'schema SelectableFieldName,
    pub nested_client_field_artifact_imports: NestedClientFieldImports,
    pub client_field_output_type: &'schema ClientFieldOutputType,
    pub reader_ast: &'schema ReaderAst,
    pub client_field_parameter_type: &'schema ClientFieldParameterType,
    pub function_import_statement: ClientFieldFunctionImportStatement,
}

/// What the modules of a refetch reader are rendered from, as plain text.
pub struct RefetchReaderArtifactText {
    pub parent_name: Seq<char>,
    pub client_field_name: Seq<char>,
    pub nested_client_field_artifact_imports: Seq<ImportKey>,
    pub client_field_output_type: Seq<char>,
    pub reader_ast: Seq<char>,
    pub client_field_parameter_type: Seq<char>,
    pub function_import_statement: Seq<char>,
}

impl<'schema> View for RefetchReaderArtifactInfo<'schema> {
    type V = RefetchReaderArtifactText;

    open spec fn view(&self) -> RefetchReaderArtifactText {
        RefetchReaderArtifactText {
            parent_name: self.parent_type.name@,
            client_field_name: self.client_field_name@,
            nested_client_field_artifact_imports: self.nested_client_field_artifact_imports@,
            client_field_output_type: self.client_field_output_type@,
            reader_ast: self.reader_ast@,
            client_field_parameter_type: self.client_field_parameter_type@,
            function_import_statement: self.function_import_statement@,
        }
    }
}

/// The three artifacts of a refetch reader, written to `relative_directory`.
/// Both import blocks are taken from the one set of imports.
pub open spec fn refetch_artifacts_in(
    info: RefetchReaderArtifactText,
    relative_directory: Seq<char>,
) -> Seq<ArtifactText> {
    reader_artifacts(
        ReaderArtifactKind::Refetch,
        relative_directory,
        info.parent_name,
        info.client_field_name,
        info.function_import_statement,
        info.nested_client_field_artifact_imports,
        info.nested_client_field_artifact_imports,
        info.reader_ast,
        info.client_field_parameter_type,
        info.client_field_output_type,
    )
}

/// The three artifacts of a refetch reader, in the directory of its client
/// field.
pub open spec fn refetch_artifacts(info: RefetchReaderArtifactText) -> Seq<ArtifactText> {
    refetch_artifacts_in(info, relative_directory_of(info.parent_name, info.client_field_name))
}

/// What the modules of the refetch reader of a client field are rendered
/// from. A field without a selection set yields nothing but the error that
/// says so; after that the parent type must be in the schema.
pub open spec fn refetch_reader_artifact_of(
    object_names: Seq<Seq<char>>,
    client_field: ClientFieldText,
    function_import_statement: Seq<char>,
) -> Result<RefetchReaderArtifactText, ArtifactGenerationError> {
    match client_field.selection_set {
        None => Err(ArtifactGenerationError::MissingSelectionSet),
        Some(walk) => match object_name_in(object_names, client_field.parent_object_id) {
            None => Err(ArtifactGenerationError::UnknownParentType),
            Some(parent_name) => Ok(
                RefetchReaderArtifactText {
                    parent_name,
                    client_field_name: client_field.name,
                    nested_client_field_artifact_imports: merged_imports(
                        walk.reader_imports,
                        walk.param_type_imports,
                    ),
                    client_field_output_type: client_field.output_type,
                    reader_ast: walk.reader_ast,
                    client_field_parameter_type: walk.client_field_parameter_type,
                    function_import_statement,
                },
            ),
        },
    }
}

/// An info or an error, with the info as plain text.
pub open spec fn info_result(
    result: Result<RefetchReaderArtifactInfo, ArtifactGenerationError>,
) -> Result<RefetchReaderArtifactText, ArtifactGenerationError> {
    match result {
        Ok(info) => Ok(info@),
        Err(error) => Err(error),
    }
}

/// Generation has no hidden input. Two runs on inputs that hold the same
/// text end alike: with the same error, or with infos that hold the same
/// text and so are rendered into the same artifacts.
pub proof fn lemma_refetch_generation_is_deterministic(
    first: Result<RefetchReaderArtifactInfo, ArtifactGenerationError>,
    second: Result<RefetchReaderArtifactInfo, ArtifactGenerationError>,
    object_names: Seq<Seq<char>>,
    client_field: ClientFieldText,
    function_import_statement: Seq<char>,
)
    requires
        info_result(first) == refetch_reader_artifact_of(
            object_names,
            client_field,
            function_import_statement,
        ),
        info_result(second) == refetch_reader_artifact_of(
            object_names,
            client_field,
            function_import_statement,
        ),
    ensures
        info_result(first) == info_result(second),
        first matches Ok(a) ==> second matches Ok(b) && refetch_artifacts(a@) == refetch_artifacts(
            b@,
        ),
        first matches Err(e) ==> second matches Err(f) && e == f,
{
}

impl<'schema> RefetchReaderArtifactInfo<'schema> {
    /// The three artifacts, in the directory of the client field.
    pub fn path_and_content(self) -> (artifacts: Vec<ArtifactPathAndContent>)
        ensures
            artifact_texts(artifacts@) == refetch_artifacts(self@),
            artifacts@.len() == 3,
    {
        let relative_directory = generate_path(&self.parent_type.name, self.client_field_name);
        self.file_contents(relative_directory.as_str())
    }

    /// The three artifacts, in the given directory: the reader module, the
    /// parameter-type module and the output-type module.
    pub fn file_contents(self, relative_directory: &str) -> (artifacts: Vec<ArtifactPathAndContent>)
        ensures
            artifact_texts(artifacts@) == refetch_artifacts_in(self@, relative_directory@),
            artifacts@.len() == 3,
    {
        let (client_field_import_statement, client_field_type_import_statement) =
            nested_client_field_names_to_import_statement(
            &self.nested_client_field_artifact_imports,
        );
        let output_type_text = get_output_type_module_text(
            ReaderArtifactKind::Refetch,
            &self.function_import_statement,
            &self.parent_type.name,
            self.client_field_name,
            self.client_field_output_type,
        );
        let reader_content = get_reader_text(
            ReaderArtifactKind::Refetch,
            &self.parent_type.name,
            self.client_field_name,
            &self.function_import_statement,
            client_field_import_statement.as_str(),
            self.reader_ast,
        );
        let param_type_content = get_param_type_text(
            &self.parent_type.name,
            self.client_field_name,
            client_field_type_import_statement.as_str(),
            self.client_field_parameter_type,
        );
        let mut artifacts: Vec<ArtifactPathAndContent> = Vec::new();
        artifacts.push(
            ArtifactPathAndContent {
                relative_directory: String::from_str(relative_directory),
                file_name_prefix: ArtifactFileType::Reader,
                file_content: reader_content,
            },
        );
        artifacts.push(
            ArtifactPathAndContent {
                relative_directory: String::from_str(relative_directory),
                file_name_prefix: ArtifactFileType::ParamType,
                file_content: param_type_content,
            },
        );
        artifacts.push(
            ArtifactPathAndContent {
                relative_directory: String::from_str(relative_directory),
                file_name_prefix: ArtifactFileType::OutputType,
                file_content: output_type_text,
            },
        );
        assert(artifact_texts(artifacts@) =~= refetch_artifacts_in(self@, relative_directory@));
        artifacts
    }
}

/// Gathers what the refetch reader of a client field is rendered from. The
/// import statement of the function is given, since the query that is
/// generated beside the reader shares it. The imports that the walk asked for
/// on behalf of the reader and on behalf of the parameter type are put into
/// one set.
///
/// A client field without a selection set is refused with
/// [`ArtifactGenerationError::MissingSelectionSet`], whatever else holds.
pub fn generate_refetch_reader_artifact<'schema>(
    schema: &'schema ValidatedSchema,
    client_field: &'schema ValidatedClientField,
    function_import_statement: ClientFieldFunctionImportStatement,
) -> (info: Result<RefetchReaderArtifactInfo<'schema>, ArtifactGenerationError>)
    ensures
        info_result(info) == refetch_reader_artifact_of(
            schema@,
            client_field@,
            function_import_statement@,
        ),
        client_field.selection_set is None <==> info_result(info) == Err::<
            RefetchReaderArtifactText,
            ArtifactGenerationError,
        >(ArtifactGenerationError::MissingSelectionSet),
{
    let walk = match &client_field.selection_set {
        Some(walk) => walk,
        None => {
            return Err(ArtifactGenerationError::MissingSelectionSet);
        },
    };
    let parent_type = match schema.object(client_field.parent_object_id) {
        Some(parent_type) => parent_type,
        None => {
            return Err(ArtifactGenerationError::UnknownParentType);
        },
    };
    let mut nested_client_field_artifact_imports = ImportSet::new();
    nested_client_field_artifact_imports.merge(&walk.reader_imports);
    nested_client_field_artifact_imports.merge(&walk.param_type_imports);
    proof {
        let merged = nested_client_field_artifact_imports@;
        let wanted = walk.reader_imports@.to_set().union(walk.param_type_imports@.to_set());
        assert(Seq::<ImportKey>::empty().to_set() =~= Set::<ImportKey>::empty());
        assert(merged.to_set() =~= wanted);
        lemma_sorted_entries_unique(
            merged,
            merged_imports(walk.reader_imports@, walk.param_type_imports@),
        );
    }
    Ok(
        RefetchReaderArtifactInfo {
            parent_type,
            client_field_name: &client_field.name,
            reader_ast: &walk.reader_ast,
            nested_client_field_artifact_imports,
            function_import_statement,
            client_field_output_type: &client_field.output_type,
            client_field_parameter_type: &walk.client_field_parameter_type,
        },
    )
}

} // verus!
