//! Generation of the reader, parameter-type and output-type modules of a
//! client field, with the names, import paths and import blocks that keep the
//! three modules consistent with each other.

pub mod artifact_file_contents;
pub mod eager_reader_artifact;
pub mod generate_artifacts;
pub mod import_statements;
pub mod path_resolver;
pub mod refetch_reader_artifact_info;
pub mod schema;
pub mod string_key_newtype;
pub mod text;
