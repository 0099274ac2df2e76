//! Typed names: each kind of name in a schema gets a type of its own, so that
//! a field name cannot be handed over where a type name is expected.

use vstd::prelude::*;
use vstd::std_specs::convert::FromSpecImpl;

verus! {

/// Marks a type as a typed wrapper around one string key.
pub trait StringKeyNewtype {

}

/// The name of an object type of the schema, such as `User`.
#[derive(Clone, Debug)]
pub struct IsographObjectTypeName(pub String);

impl StringKeyNewtype for IsographObjectTypeName {

}

impl View for IsographObjectTypeName {
    type V = Seq<char>;

    open spec fn view(&self) -> Seq<char> {
        self.0@
    }
}

impl IsographObjectTypeName {
    /// The text of the key.
    pub fn lookup(&self) -> (text: &str)
        ensures
            text@ == self@,
    {
        self.0.as_str()
    }
}

impl From<String> for IsographObjectTypeName {
    fn from(other: String) -> (key: Self) {
        IsographObjectTypeName(other)
    }
}

impl FromSpecImpl<String> for IsographObjectTypeName {
    open spec fn obeys_from_spec() -> bool {
        true
    }

    open spec fn from_spec(other: String) -> Self {
        IsographObjectTypeName(other)
    }
}

/// The name of a field that can be selected on an object type, such as
/// `displayName`.
#[derive(Clone, Debug)]
pub struct SelectableFieldName(pub String);

impl StringKeyNewtype for SelectableFieldName {

}

impl View for SelectableFieldName {
    type V = Seq<char>;

    open spec fn view(&self) -> Seq<char> {
        self.0@
    }
}

impl SelectableFieldName {
    /// The text of the key.
    pub fn lookup(&self) -> (text: &str)
        ensures
            text@ == self@,
    {
        self.0.as_str()
    }
}

impl From<String> for SelectableFieldName {
    fn from(other: String) -> (key: Self) {
        SelectableFieldName(other)
    }
}

impl FromSpecImpl<String> for SelectableFieldName {
    open spec fn obeys_from_spec() -> bool {
        true
    }

    open spec fn from_spec(other: String) -> Self {
        SelectableFieldName(other)
    }
}

/// The name under which a source file exports the function of a client
/// field.
#[derive(Clone, Debug)]
pub struct ConstExportName(pub String);

impl StringKeyNewtype for ConstExportName {

}

impl View for ConstExportName {
    type V = Seq<char>;

    open spec fn view(&self) -> Seq<char> {
        self.0@
    }
}

impl ConstExportName {
    /// The text of the key.
    pub fn lookup(&self) -> (text: &str)
        ensures
            text@ == self@,
    {
        self.0.as_str()
    }
}

impl From<String> for ConstExportName {
    fn from(other: String) -> (key: Self) {
        ConstExportName(other)
    }
}

impl FromSpecImpl<String> for ConstExportName {
    open spec fn obeys_from_spec() -> bool {
        true
    }

    open spec fn from_spec(other: String) -> Self {
        ConstExportName(other)
    }
}

/// The path of a source file, as written relative to the project root.
#[derive(Clone, Debug)]
pub struct FilePath(pub String);

impl StringKeyNewtype for FilePath {

}

impl View for FilePath {
    type V = Seq<char>;

    open spec fn view(&self) -> Seq<char> {
        self.0@
    }
}

impl FilePath {
    /// The text of the key.
    pub fn lookup(&self) -> (text: &str)
        ensures
            text@ == self@,
    {
        self.0.as_str()
    }
}

impl From<String> for FilePath {
    fn from(other: String) -> (key: Self) {
        FilePath(other)
    }
}

impl FromSpecImpl<String> for FilePath {
    open spec fn obeys_from_spec() -> bool {
        true
    }

    open spec fn from_spec(other: String) -> Self {
        FilePath(other)
    }
}

} // verus!
