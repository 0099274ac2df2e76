//! From the source file of a client field to the path by which a generated
//! module imports it.

use crate::generate_artifacts::{ArtifactGenerationError, ClientFieldFunctionImportStatement};
use crate::schema::UserWrittenClientFieldInfo;
use crate::string_key_newtype::ConstExportName;
use std::path::Path;
use vstd::prelude::*;
use vstd::utf8::{
    decode_utf8, decode_utf8_split, encode_utf8, encode_utf8_decode_utf8, encode_utf8_valid_utf8,
    is_char_boundary,
};

verus! {

/// What `std::path::Path::join` makes of `base` and `path`, as text; `None`
/// where the joined path is not text. It depends on the two texts alone, read
/// by the path syntax of the platform that the library is built for.
pub uninterp spec fn joined_path(base: Seq<char>, path: Seq<char>) -> Option<Seq<char>>;

/// What `pathdiff::diff_paths` makes of `path` and `base`: `None` where it
/// finds no relative path, `Some(None)` where the path it finds is not text,
/// else the path as text.
pub uninterp spec fn relative_path_between(path: Seq<char>, base: Seq<char>) -> Option<
    Option<Seq<char>>,
>;

/// The length of what `std::path::Path::extension` finds in `path`; `None`
/// where it finds no extension.
pub uninterp spec fn extension_length(path: Seq<char>) -> Option<usize>;

/// An optional string as optional text.
pub open spec fn text_of(text: Option<String>) -> Option<Seq<char>> {
    match text {
        Some(text) => Some(text@),
        None => None,
    }
}

/// Calls `std::path::Path::join` on `base` with `path` and hands the result
/// back as text. The contract only gives the result its name: it is a
/// function of the two texts.
#[verifier::external_body]
fn join_path(base: &str, path: &str) -> (joined: Option<String>)
    ensures
        text_of(joined) == joined_path(base@, path@),
{
    Path::new(base).join(path).into_os_string().into_string().ok()
}

/// Calls `pathdiff::diff_paths`, which compares the two paths component by
/// component without looking at the file system, and hands the result back
/// as text. The contract only gives the result its name: it is a function of
/// the two texts.
#[verifier::external_body]
fn diff_paths(path: &str, base: &str) -> (relative: Option<Option<String>>)
    ensures
        match relative {
            Some(found) => relative_path_between(path@, base@) == Some(text_of(found)),
            None => relative_path_between(path@, base@) is None,
        },
{
    match pathdiff::diff_paths(path, base) {
        Some(relative) => Some(relative.into_os_string().into_string().ok()),
        None => None,
    }
}

/// Calls `std::path::Path::extension` on `path` and hands back the length of
/// what it found, as `std::ffi::OsStr::len` gives it. The contract only gives
/// the result its name: it is a function of the text.
#[verifier::external_body]
fn extension_len(path: &str) -> (length: Option<usize>)
    ensures
        length == extension_length(path@),
{
    match Path::new(path).extension() {
        Some(extension) => Some(extension.len()),
        None => None,
    }
}

/// The path without its extension: without the last `extension + 1` bytes of
/// its UTF-8 encoding, which are the extension and the dot before it. `None`
/// where the path is shorter than that or would be cut inside a character.
pub open spec fn stem_of(path: Seq<char>, extension: Option<usize>) -> Option<Seq<char>> {
    match extension {
        None => Some(path),
        Some(length) => {
            let bytes = encode_utf8(path);
            let kept = bytes.len() - length - 1;
            if 0 <= kept && is_char_boundary(bytes, kept) {
                Some(decode_utf8(bytes.subrange(0, kept)))
            } else {
                None
            }
        },
    }
}

/// The path by which a module two directories below `artifact_directory`
/// imports the source file `file_path` of the project at `project_root`.
pub open spec fn import_path_of(
    project_root: Seq<char>,
    artifact_directory: Seq<char>,
    file_path: Seq<char>,
) -> Result<Seq<char>, ArtifactGenerationError> {
    match (joined_path(project_root, file_path), joined_path(artifact_directory, "Type/Field"@)) {
        (Some(source), Some(nested)) => match relative_path_between(source, nested) {
            None => Err(ArtifactGenerationError::NoRelativePath),
            Some(None) => Err(ArtifactGenerationError::PathNotText),
            Some(Some(relative)) => match stem_of(relative, extension_length(relative)) {
                Some(stem) => Ok(stem),
                None => Err(ArtifactGenerationError::PathNotText),
            },
        },
        _ => Err(ArtifactGenerationError::PathNotText),
    }
}

/// The statement that imports `const_export_name` from `import_path` under
/// the name `resolver`.
pub open spec fn function_import_text(const_export_name: Seq<char>, import_path: Seq<char>) -> Seq<
    char,
> {
    "import { "@ + const_export_name + " as resolver } from '"@ + import_path + "';"@
}

/// The import statement for the function that `info` describes.
pub open spec fn function_import_of(
    project_root: Seq<char>,
    artifact_directory: Seq<char>,
    const_export_name: Seq<char>,
    file_path: Seq<char>,
) -> Result<Seq<char>, ArtifactGenerationError> {
    match import_path_of(project_root, artifact_directory, file_path) {
        Ok(import_path) => Ok(function_import_text(const_export_name, import_path)),
        Err(error) => Err(error),
    }
}

/// A result that holds a string, as a result that holds text.
pub open spec fn text_result(result: Result<String, ArtifactGenerationError>) -> Result<
    Seq<char>,
    ArtifactGenerationError,
> {
    match result {
        Ok(text) => Ok(text@),
        Err(error) => Err(error),
    }
}

/// A result that holds an import statement, as a result that holds text.
pub open spec fn statement_result(
    result: Result<ClientFieldFunctionImportStatement, ArtifactGenerationError>,
) -> Result<Seq<char>, ArtifactGenerationError> {
    match result {
        Ok(statement) => Ok(statement@),
        Err(error) => Err(error),
    }
}

/// Stripping an extension only takes away from the end of a path: what is
/// left is a prefix of the path.
pub proof fn lemma_stem_is_prefix(path: Seq<char>, extension: Option<usize>)
    ensures
        stem_of(path, extension) matches Some(stem) ==> stem.is_prefix_of(path),
{
    if let Some(length) = extension {
        let bytes = encode_utf8(path);
        let kept = bytes.len() - length - 1;
        if 0 <= kept && is_char_boundary(bytes, kept) {
            encode_utf8_valid_utf8(path);
            encode_utf8_decode_utf8(path);
            decode_utf8_split(bytes, kept);
        }
    }
}

/// Strips from `path` an extension of the given length, with the dot before
/// it.
pub fn strip_extension(path: &str, extension: Option<usize>) -> (stem: Option<String>)
    ensures
        text_of(stem) == stem_of(path@, extension),
{
    match extension {
        None => Some(String::from_str(path)),
        Some(length) => {
            let size = path.as_bytes().len();
            if length < size && path.is_char_boundary(size - length - 1) {
                let (stem, _) = path.split_at(size - length - 1);
                proof {
                    encode_utf8_decode_utf8(stem@);
                }
                Some(String::from_str(stem))
            } else {
                None
            }
        },
    }
}

/// The path by which a module two directories below `artifact_directory`
/// imports the source file `file_path` of the project at `project_root`: the
/// relative path from there to the file, without the file's extension.
pub fn import_path_for_source(project_root: &str, artifact_directory: &str, file_path: &str) -> (path:
    Result<String, ArtifactGenerationError>)
    ensures
        text_result(path) == import_path_of(project_root@, artifact_directory@, file_path@),
{
    let source = match join_path(project_root, file_path) {
        Some(source) => source,
        None => {
            return Err(ArtifactGenerationError::PathNotText);
        },
    };
    // The artifacts of a field lie two directories below the artifact
    // directory, whatever the type and the field are called: the two names
    // never show in the relative path.
    let nested = match join_path(artifact_directory, "Type/Field") {
        Some(nested) => nested,
        None => {
            return Err(ArtifactGenerationError::PathNotText);
        },
    };
    let relative = match diff_paths(source.as_str(), nested.as_str()) {
        None => {
            return Err(ArtifactGenerationError::NoRelativePath);
        },
        Some(None) => {
            return Err(ArtifactGenerationError::PathNotText);
        },
        Some(Some(relative)) => relative,
    };
    let extension = extension_len(relative.as_str());
    match strip_extension(relative.as_str(), extension) {
        Some(stem) => Ok(stem),
        None => Err(ArtifactGenerationError::PathNotText),
    }
}

/// Writes the statement that imports `const_export_name` from `import_path`
/// under the name `resolver`.
pub fn function_import_statement(const_export_name: &ConstExportName, import_path: &str) -> (statement:
    ClientFieldFunctionImportStatement)
    ensures
        statement@ == function_import_text(const_export_name@, import_path@),
{
    let mut statement = String::from_str("import { ");
    statement.append(const_export_name.lookup());
    statement.append(" as resolver } from '");
    statement.append(import_path);
    statement.append("';");
    ClientFieldFunctionImportStatement(statement)
}

/// The statement by which the modules of a client field import its function.
pub fn generate_function_import_statement(
    project_root: &str,
    artifact_directory: &str,
    user_written_client_field_info: &UserWrittenClientFieldInfo,
) -> (statement: Result<ClientFieldFunctionImportStatement, ArtifactGenerationError>)
    ensures
        statement_result(statement) == function_import_of(
            project_root@,
            artifact_directory@,
            user_written_client_field_info.const_export_name@,
            user_written_client_field_info.file_path@,
        ),
{
    match import_path_for_source(
        project_root,
        artifact_directory,
        user_written_client_field_info.file_path.lookup(),
    ) {
        Ok(import_path) => Ok(
            function_import_statement(
                &user_written_client_field_info.const_export_name,
                import_path.as_str(),
            ),
        ),
        Err(error) => Err(error),
    }
}

} // verus!
