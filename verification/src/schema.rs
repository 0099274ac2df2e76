//! The part of a validated schema that artifact generation reads: the object
//! types by their identifiers, and a client field with what the walk over its
//! selection set has rendered.

use crate::generate_artifacts::{ClientFieldOutputType, ClientFieldParameterType, ReaderAst};
use crate::import_statements::{ImportKey, ParamTypeImports, ReaderImports};
use crate::string_key_newtype::{
    ConstExportName, FilePath, IsographObjectTypeName, SelectableFieldName,
};
use vstd::prelude::*;

verus! {

/// Identifies an object type of a schema.
#[derive(Clone, Copy, Debug, PartialEq, Eq, Structural)]
pub struct ObjectId(pub u32);

/// An object type of the schema.
#[derive(Debug)]
pub struct SchemaObject {
    pub name: IsographObjectTypeName,
}

/// The types that the server defines.
#[derive(Debug)]
pub struct ServerFieldData {
    pub objects: Vec<SchemaObject>,
}

/// A schema that has passed validation.
#[derive(Debug)]
pub struct ValidatedSchema {
    pub server_field_data: ServerFieldData,
}

/// Whether the function of a client field is a plain resolver or a UI
/// component.
#[derive(Clone, Copy, Debug, PartialEq, Eq, Structural)]
pub enum UserWrittenComponentVariant {
    Eager,
    Component,
}

/// Where the function of a client field was written, and as what.
#[derive(Debug)]
pub struct UserWrittenClientFieldInfo {
    pub const_export_name: ConstExportName,
    pub file_path: FilePath,
    pub user_written_component_variant: UserWrittenComponentVariant,
}

/// A selection set as artifact generation sees it: what the walk over it has
/// rendered, and the imports that the walk has asked for.
#[derive(Debug)]
pub struct SelectionSetWalk {
    pub reader_ast: ReaderAst,
    pub reader_imports: ReaderImports,
    pub client_field_parameter_type: ClientFieldParameterType,
    pub param_type_imports: ParamTypeImports,
}

/// A client field that has passed validation.
#[derive(Debug)]
pub struct ValidatedClientField {
    pub name: SelectableFieldName,
    pub parent_object_id: ObjectId,
    pub selection_set: Option<SelectionSetWalk>,
    pub output_type: ClientFieldOutputType,
}

/// What a walk has rendered, as plain text.
pub struct SelectionSetWalkText {
    pub reader_ast: Seq<char>,
    pub reader_imports: Seq<ImportKey>,
    pub client_field_parameter_type: Seq<char>,
    pub param_type_imports: Seq<ImportKey>,
}

/// A client field as plain text.
pub struct ClientFieldText {
    pub name: Seq<char>,
    pub parent_object_id: ObjectId,
    pub selection_set: Option<SelectionSetWalkText>,
    pub output_type: Seq<char>,
}

/// Where a function was written, as plain text.
pub struct ClientFieldInfoText {
    pub const_export_name: Seq<char>,
    pub file_path: Seq<char>,
    pub user_written_component_variant: UserWrittenComponentVariant,
}

impl View for SelectionSetWalk {
    type V = SelectionSetWalkText;

    open spec fn view(&self) -> SelectionSetWalkText {
        SelectionSetWalkText {
            reader_ast: self.reader_ast@,
            reader_imports: self.reader_imports@,
            client_field_parameter_type: self.client_field_parameter_type@,
            param_type_imports: self.param_type_imports@,
        }
    }
}

impl View for ValidatedClientField {
    type V = ClientFieldText;

    open spec fn view(&self) -> ClientFieldText {
        ClientFieldText {
            name: self.name@,
            parent_object_id: self.parent_object_id,
            selection_set: match self.selection_set {
                Some(walk) => Some(walk@),
                None => None,
            },
            output_type: self.output_type@,
        }
    }
}

impl View for UserWrittenClientFieldInfo {
    type V = ClientFieldInfoText;

    open spec fn view(&self) -> ClientFieldInfoText {
        ClientFieldInfoText {
            const_export_name: self.const_export_name@,
            file_path: self.file_path@,
            user_written_component_variant: self.user_written_component_variant,
        }
    }
}

/// A schema is seen as the names of its object types, each at the place of
/// its identifier.
impl View for ValidatedSchema {
    type V = Seq<Seq<char>>;

    open spec fn view(&self) -> Seq<Seq<char>> {
        Seq::new(
            self.server_field_data.objects@.len(),
            |i: int| self.server_field_data.objects@[i].name@,
        )
    }
}

/// The name of the object type that `object_id` identifies among
/// `object_names`, if there is one.
pub open spec fn object_name_in(object_names: Seq<Seq<char>>, object_id: ObjectId) -> Option<
    Seq<char>,
> {
    if object_id.0 < object_names.len() {
        Some(object_names[object_id.0 as int])
    } else {
        None
    }
}

impl ValidatedSchema {
    /// The object type that `object_id` identifies, if there is one.
    pub fn object(&self, object_id: ObjectId) -> (object: Option<&SchemaObject>)
        ensures
            match object {
                Some(found) => {
                    &&& object_id.0 < self.server_field_data.objects@.len()
                    &&& *found == self.server_field_data.objects@[object_id.0 as int]
                    &&& object_name_in(self@, object_id) == Some(found.name@)
                },
                None => object_name_in(self@, object_id) is None,
            },
    {
        let index = object_id.0 as usize;
        if index < self.server_field_data.objects.len() {
            Some(&self.server_field_data.objects[index])
        } else {
            None
        }
    }
}

} // verus!
