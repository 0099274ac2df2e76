//! What every generator shares: the artifact as a value, the three file names
//! of a client field, the directory it is written to, and the two type names
//! that its modules agree on.

use crate::string_key_newtype::{IsographObjectTypeName, SelectableFieldName};
use vstd::prelude::*;

verus! {

/// Which of the three modules of a client field an artifact is.
#[derive(Clone, Copy, Debug, PartialEq, Eq, Structural)]
pub enum ArtifactFileType {
    /// The module that the runtime loads to read the field.
    Reader,
    /// The module that declares the type of the function's parameter.
    ParamType,
    /// The module that declares the type of what the function returns.
    OutputType,
}

impl ArtifactFileType {
    /// The name of the file, without extension.
    pub open spec fn file_name(self) -> Seq<char> {
        match self {
            ArtifactFileType::Reader => "reader"@,
            ArtifactFileType::ParamType => "param_type"@,
            ArtifactFileType::OutputType => "output_type"@,
        }
    }

    /// The name of the file, without extension.
    pub fn lookup(&self) -> (name: &'static str)
        ensures
            name@ == self.file_name(),
    {
        match self {
            ArtifactFileType::Reader => "reader",
            ArtifactFileType::ParamType => "param_type",
            ArtifactFileType::OutputType => "output_type",
        }
    }
}

/// The rendered description of how to read a field's data at runtime.
#[derive(Clone, Debug)]
pub struct ReaderAst(pub String);

/// The rendered type expression of what a client field's function returns.
#[derive(Clone, Debug)]
pub struct ClientFieldOutputType(pub String);

/// The rendered type expression of what a client field's function is given.
#[derive(Clone, Debug)]
pub struct ClientFieldParameterType(pub String);

/// The statement that imports a client field's function under the name
/// `resolver`.
#[derive(Clone, Debug)]
pub struct ClientFieldFunctionImportStatement(pub String);

impl View for ReaderAst {
    type V = Seq<char>;

    open spec fn view(&self) -> Seq<char> {
        self.0@
    }
}

impl View for ClientFieldOutputType {
    type V = Seq<char>;

    open spec fn view(&self) -> Seq<char> {
        self.0@
    }
}

impl View for ClientFieldParameterType {
    type V = Seq<char>;

    open spec fn view(&self) -> Seq<char> {
        self.0@
    }
}

impl View for ClientFieldFunctionImportStatement {
    type V = Seq<char>;

    open spec fn view(&self) -> Seq<char> {
        self.0@
    }
}

/// One generated file: where it goes and what it holds.
#[derive(Debug)]
pub struct ArtifactPathAndContent {
    pub relative_directory: String,
    pub file_name_prefix: ArtifactFileType,
    pub file_content: String,
}

/// An artifact as plain text.
pub struct ArtifactText {
    pub relative_directory: Seq<char>,
    pub file_name_prefix: ArtifactFileType,
    pub file_content: Seq<char>,
}

impl View for ArtifactPathAndContent {
    type V = ArtifactText;

    open spec fn view(&self) -> ArtifactText {
        ArtifactText {
            relative_directory: self.relative_directory@,
            file_name_prefix: self.file_name_prefix,
            file_content: self.file_content@,
        }
    }
}

/// The artifacts of a list, each as plain text.
pub open spec fn artifact_texts(artifacts: Seq<ArtifactPathAndContent>) -> Seq<ArtifactText> {
    Seq::new(artifacts.len(), |i: int| artifacts[i]@)
}

/// The three artifacts of one client field, in the order in which they are
/// returned: all in one directory, one of each file type.
pub open spec fn artifact_triple(
    relative_directory: Seq<char>,
    reader: Seq<char>,
    param_type: Seq<char>,
    output_type: Seq<char>,
) -> Seq<ArtifactText> {
    seq![
        ArtifactText {
            relative_directory,
            file_name_prefix: ArtifactFileType::Reader,
            file_content: reader,
        },
        ArtifactText {
            relative_directory,
            file_name_prefix: ArtifactFileType::ParamType,
            file_content: param_type,
        },
        ArtifactText {
            relative_directory,
            file_name_prefix: ArtifactFileType::OutputType,
            file_content: output_type,
        },
    ]
}

/// Why no artifacts were generated for a client field.
#[derive(Clone, Copy, Debug, PartialEq, Eq, Structural)]
pub enum ArtifactGenerationError {
    /// The client field has no selection set.
    MissingSelectionSet,
    /// The client field names a parent type that the schema does not hold.
    UnknownParentType,
    /// No relative path leads from the artifact's directory to the source
    /// file.
    NoRelativePath,
    /// The path by which the source file is imported cannot be written as
    /// text.
    PathNotText,
}

/// The directory of a client field's artifacts, relative to the artifact
/// root: the parent type's name, then the field's name.
pub open spec fn relative_directory_of(object_name: Seq<char>, field_name: Seq<char>) -> Seq<char> {
    object_name + "/"@ + field_name
}

/// The name of the parameter type of a client field.
pub open spec fn param_type_symbol(object_name: Seq<char>, field_name: Seq<char>) -> Seq<char> {
    object_name + "__"@ + field_name + "__param"@
}

/// The name of the output type of a client field.
pub open spec fn output_type_symbol(object_name: Seq<char>, field_name: Seq<char>) -> Seq<char> {
    object_name + "__"@ + field_name + "__output_type"@
}

/// The directory, relative to the artifact root, that holds the three
/// artifacts of a client field.
pub fn generate_path(object_name: &IsographObjectTypeName, field_name: &SelectableFieldName) -> (path:
    String)
    ensures
        path@ == relative_directory_of(object_name@, field_name@),
{
    let mut path = String::from_str(object_name.lookup());
    path.append("/");
    path.append(field_name.lookup());
    path
}

/// The name that the reader module and the parameter-type module use for the
/// parameter type.
pub fn reader_param_type(
    object_name: &IsographObjectTypeName,
    field_name: &SelectableFieldName,
) -> (symbol: String)
    ensures
        symbol@ == param_type_symbol(object_name@, field_name@),
{
    let mut symbol = String::from_str(object_name.lookup());
    symbol.append("__");
    symbol.append(field_name.lookup());
    symbol.append("__param");
    symbol
}

/// The name that the reader module and the output-type module use for the
/// output type.
pub fn reader_output_type(
    object_name: &IsographObjectTypeName,
    field_name: &SelectableFieldName,
) -> (symbol: String)
    ensures
        symbol@ == output_type_symbol(object_name@, field_name@),
{
    let mut symbol = String::from_str(object_name.lookup());
    symbol.append("__");
    symbol.append(field_name.lookup());
    symbol.append("__output_type");
    symbol
}

/// Two fields of one parent type never share a directory.
pub proof fn lemma_directories_differ_by_field(
    object_name: Seq<char>,
    field_a: Seq<char>,
    field_b: Seq<char>,
)
    requires
        field_a != field_b,
    ensures
        relative_directory_of(object_name, field_a) != relative_directory_of(object_name, field_b),
{
    let front = object_name + "/"@;
    let a = relative_directory_of(object_name, field_a);
    let b = relative_directory_of(object_name, field_b);
    assert(a.subrange(front.len() as int, a.len() as int) =~= field_a);
    assert(b.subrange(front.len() as int, b.len() as int) =~= field_b);
}

/// Whether a name is free of the separator that stands between the two parts
/// of a directory.
pub open spec fn is_one_segment(name: Seq<char>) -> bool {
    forall|i: int| 0 <= i < name.len() ==> name[i] != '/'
}

/// The directory determines the parent type and the field, for parent types
/// whose names hold no separator.
pub proof fn lemma_directory_is_injective(
    type_a: Seq<char>,
    field_a: Seq<char>,
    type_b: Seq<char>,
    field_b: Seq<char>,
)
    requires
        is_one_segment(type_a),
        is_one_segment(type_b),
        relative_directory_of(type_a, field_a) == relative_directory_of(type_b, field_b),
    ensures
        type_a == type_b,
        field_a == field_b,
{
    reveal_strlit("/");
    let a = relative_directory_of(type_a, field_a);
    let b = relative_directory_of(type_b, field_b);
    assert("/"@.len() == 1 && "/"@[0] == '/');
    assert(a[type_a.len() as int] == '/');
    assert(b[type_b.len() as int] == '/');
    assert(forall|i: int| 0 <= i < type_a.len() ==> a[i] == type_a[i]);
    assert(forall|i: int| 0 <= i < type_b.len() ==> b[i] == type_b[i]);
    if type_a.len() < type_b.len() {
        assert(b[type_a.len() as int] == type_b[type_a.len() as int]);
    }
    if type_b.len() < type_a.len() {
        assert(a[type_b.len() as int] == type_a[type_b.len() as int]);
    }
    assert(type_a =~= type_b);
    assert(a.subrange(type_a.len() as int + 1, a.len() as int) =~= field_a);
    assert(b.subrange(type_b.len() as int + 1, b.len() as int) =~= field_b);
}

} // verus!
