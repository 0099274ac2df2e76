//! The text of the three modules of a client field. Every renderer takes the
//! kind of reader together with the parent type's and the field's name, and
//! derives the shared type names from them in one way.

use crate::generate_artifacts::{
    artifact_triple, output_type_symbol, param_type_symbol, reader_output_type, reader_param_type,
    ArtifactText, ClientFieldFunctionImportStatement, ClientFieldOutputType,
    ClientFieldParameterType, ReaderAst,
};
use crate::import_statements::{import_block, ImportKey, ImportedFileCategory};
use crate::string_key_newtype::{IsographObjectTypeName, SelectableFieldName};
use crate::text::{lemma_occurs_in_back, lemma_occurs_in_front, lemma_occurs_in_itself, occurs_in};
use vstd::prelude::*;

verus! {

/// The kind of reader that a reader module declares.
#[derive(Clone, Copy, Debug, PartialEq, Eq, Structural)]
pub enum ReaderArtifactKind {
    /// A plain resolver, read in place.
    Eager,
    /// A UI component, read in place.
    Component,
    /// The reader behind a refetchable query.
    Refetch,
}

/// A field of the record that a reader module exports.
#[derive(Clone, Copy, Debug, PartialEq, Eq, Structural)]
pub enum ReaderRecordField {
    /// `kind`, the discriminator.
    Kind,
    /// `componentName`, the parent type and the field joined by a dot.
    ComponentName,
    /// `resolver`, the imported function.
    Resolver,
    /// `readerAst`, the reader AST declared above the record.
    ReaderAst,
}

impl ReaderArtifactKind {
    /// The value of the `kind` field.
    pub open spec fn discriminator(self) -> Seq<char> {
        match self {
            ReaderArtifactKind::Eager => "EagerReaderArtifact"@,
            ReaderArtifactKind::Component => "ComponentReaderArtifact"@,
            ReaderArtifactKind::Refetch => "RefetchReaderArtifact"@,
        }
    }

    /// The line that imports the framework's types.
    pub open spec fn framework_import(self) -> Seq<char> {
        match self {
            ReaderArtifactKind::Eager =>
                "import type {EagerReaderArtifact, ReaderAst, RefetchQueryNormalizationArtifact} from '@isograph/react';\n"@,
            ReaderArtifactKind::Component =>
                "import type {ComponentReaderArtifact, ExtractSecondParam, ReaderAst, RefetchQueryNormalizationArtifact} from '@isograph/react';\n"@,
            ReaderArtifactKind::Refetch =>
                "import type {RefetchReaderArtifact, ReaderAst, RefetchQueryNormalizationArtifact} from '@isograph/react';\n"@,
        }
    }

    /// The fields of the exported record, in the order in which they are
    /// written.
    pub open spec fn record_fields(self) -> Seq<ReaderRecordField> {
        match self {
            ReaderArtifactKind::Component => seq![
                ReaderRecordField::Kind,
                ReaderRecordField::ComponentName,
                ReaderRecordField::Resolver,
                ReaderRecordField::ReaderAst,
            ],
            _ => seq![
                ReaderRecordField::Kind,
                ReaderRecordField::Resolver,
                ReaderRecordField::ReaderAst,
            ],
        }
    }

    /// Whether the reader module imports the output type by name.
    pub open spec fn names_output_type(self) -> bool {
        self == ReaderArtifactKind::Eager
    }

    /// Whether the output-type module declares the output type by name.
    pub open spec fn declares_output_type(self) -> bool {
        self != ReaderArtifactKind::Component
    }

    /// The value of the `kind` field.
    pub fn kind_name(&self) -> (name: &'static str)
        ensures
            name@ == self.discriminator(),
    {
        match self {
            ReaderArtifactKind::Eager => "EagerReaderArtifact",
            ReaderArtifactKind::Component => "ComponentReaderArtifact",
            ReaderArtifactKind::Refetch => "RefetchReaderArtifact",
        }
    }

    fn framework_import_line(&self) -> (line: &'static str)
        ensures
            line@ == self.framework_import(),
    {
        match self {
            ReaderArtifactKind::Eager =>
                "import type {EagerReaderArtifact, ReaderAst, RefetchQueryNormalizationArtifact} from '@isograph/react';\n",
            ReaderArtifactKind::Component =>
                "import type {ComponentReaderArtifact, ExtractSecondParam, ReaderAst, RefetchQueryNormalizationArtifact} from '@isograph/react';\n",
            ReaderArtifactKind::Refetch =>
                "import type {RefetchReaderArtifact, ReaderAst, RefetchQueryNormalizationArtifact} from '@isograph/react';\n",
        }
    }

    fn fields(&self) -> (fields: Vec<ReaderRecordField>)
        ensures
            fields@ == self.record_fields(),
    {
        let mut fields: Vec<ReaderRecordField> = Vec::new();
        fields.push(ReaderRecordField::Kind);
        match self {
            ReaderArtifactKind::Component => {
                fields.push(ReaderRecordField::ComponentName);
            },
            _ => {},
        }
        fields.push(ReaderRecordField::Resolver);
        fields.push(ReaderRecordField::ReaderAst);
        assert(fields@ =~= self.record_fields());
        fields
    }
}

/// The name of a component: the parent type and the field, joined by a dot.
pub open spec fn component_name(object_name: Seq<char>, field_name: Seq<char>) -> Seq<char> {
    object_name + "."@ + field_name
}

/// The line of the reader module that imports the parameter type.
pub open spec fn param_type_import(object_name: Seq<char>, field_name: Seq<char>) -> Seq<char> {
    "import { "@ + param_type_symbol(object_name, field_name) + " } from './param_type';\n"@
}

/// The line of the reader module that imports the output type; nothing for a
/// kind of reader that does not name it.
pub open spec fn output_type_import(
    kind: ReaderArtifactKind,
    object_name: Seq<char>,
    field_name: Seq<char>,
) -> Seq<char> {
    if kind.names_output_type() {
        "import { "@ + output_type_symbol(object_name, field_name) + " } from './output_type';\n"@
    } else {
        Seq::empty()
    }
}

/// The declaration of the reader AST.
pub open spec fn reader_ast_declaration(
    object_name: Seq<char>,
    field_name: Seq<char>,
    reader_ast: Seq<char>,
) -> Seq<char> {
    "const readerAst: ReaderAst<"@ + param_type_symbol(object_name, field_name) + "> = "@
        + reader_ast + ";\n\n"@
}

/// The opening of the exported record, with its type.
pub open spec fn artifact_opening(
    kind: ReaderArtifactKind,
    object_name: Seq<char>,
    field_name: Seq<char>,
) -> Seq<char> {
    match kind {
        ReaderArtifactKind::Eager => "const artifact: EagerReaderArtifact<\n  "@
            + param_type_symbol(object_name, field_name) + ",\n  "@ + output_type_symbol(
            object_name,
            field_name,
        ) + "\n> = {\n"@,
        ReaderArtifactKind::Component => "const artifact: ComponentReaderArtifact<\n  "@
            + param_type_symbol(object_name, field_name)
            + ",\n  ExtractSecondParam<typeof resolver>\n> = {\n"@,
        ReaderArtifactKind::Refetch => "const artifact: RefetchReaderArtifact = {\n"@,
    }
}

/// One field of the exported record, as a line of its own. The resolver of a
/// refetch reader is preceded by a line that silences the type checker.
pub open spec fn record_field_line(
    kind: ReaderArtifactKind,
    object_name: Seq<char>,
    field_name: Seq<char>,
    field: ReaderRecordField,
) -> Seq<char> {
    match field {
        ReaderRecordField::Kind => "  kind: \""@ + kind.discriminator() + "\",\n"@,
        ReaderRecordField::ComponentName => "  componentName: \""@ + component_name(
            object_name,
            field_name,
        ) + "\",\n"@,
        ReaderRecordField::Resolver => if kind == ReaderArtifactKind::Refetch {
            "  // @ts-ignore\n  resolver,\n"@
        } else {
            "  resolver,\n"@
        },
        ReaderRecordField::ReaderAst => "  readerAst,\n"@,
    }
}

/// The lines of the given record fields, in their order.
pub open spec fn record_lines(
    kind: ReaderArtifactKind,
    object_name: Seq<char>,
    field_name: Seq<char>,
    fields: Seq<ReaderRecordField>,
) -> Seq<char>
    decreases fields.len(),
{
    if fields.len() == 0 {
        Seq::empty()
    } else {
        record_lines(kind, object_name, field_name, fields.drop_last()) + record_field_line(
            kind,
            object_name,
            field_name,
            fields.last(),
        )
    }
}

/// The text of a reader module.
pub open spec fn reader_module_text(
    kind: ReaderArtifactKind,
    object_name: Seq<char>,
    field_name: Seq<char>,
    function_import_statement: Seq<char>,
    reader_import_statement: Seq<char>,
    reader_ast: Seq<char>,
) -> Seq<char> {
    kind.framework_import() + param_type_import(object_name, field_name) + output_type_import(
        kind,
        object_name,
        field_name,
    ) + function_import_statement + "\n"@ + reader_import_statement + "\n"@
        + reader_ast_declaration(object_name, field_name, reader_ast) + artifact_opening(
        kind,
        object_name,
        field_name,
    ) + record_lines(kind, object_name, field_name, kind.record_fields())
        + "};\n\nexport default artifact;\n"@
}

/// The start of the declaration of the parameter type, up to the expression.
pub open spec fn param_type_declaration_head(object_name: Seq<char>, field_name: Seq<char>) -> Seq<
    char,
> {
    "export type "@ + param_type_symbol(object_name, field_name) + " = "@
}

/// The text of a parameter-type module.
pub open spec fn param_type_module_text(
    object_name: Seq<char>,
    field_name: Seq<char>,
    param_type_import_statement: Seq<char>,
    client_field_parameter_type: Seq<char>,
) -> Seq<char> {
    param_type_import_statement + "\n"@ + param_type_declaration_head(object_name, field_name)
        + client_field_parameter_type + ";\n"@
}

/// The start of the declaration of the output type, up to the expression.
pub open spec fn output_type_declaration_head(object_name: Seq<char>, field_name: Seq<char>) -> Seq<
    char,
> {
    "export type "@ + output_type_symbol(object_name, field_name) + " = "@
}

/// The import of the function, then the declaration of the output type.
pub open spec fn output_type_text(
    function_import_statement: Seq<char>,
    object_name: Seq<char>,
    field_name: Seq<char>,
    output_type: Seq<char>,
) -> Seq<char> {
    function_import_statement + "\n"@ + output_type_declaration_head(object_name, field_name)
        + output_type + ";"@
}

/// The line with which the output-type module of a refetch reader begins.
pub open spec fn refetch_output_type_import() -> Seq<char> {
    "import { RefetchQueryNormalizationArtifact } from '@isograph/react';\n"@
}

/// The text of an output-type module. For a component it declares no type of
/// its own: the type of a component follows from its function, so the module
/// hands on the framework's helper that extracts it.
pub open spec fn output_type_module_text(
    kind: ReaderArtifactKind,
    function_import_statement: Seq<char>,
    object_name: Seq<char>,
    field_name: Seq<char>,
    output_type: Seq<char>,
) -> Seq<char> {
    match kind {
        ReaderArtifactKind::Eager => output_type_text(
            function_import_statement,
            object_name,
            field_name,
            output_type,
        ),
        ReaderArtifactKind::Component =>
            "import type {ExtractSecondParam, RefetchQueryNormalizationArtifact} from '@isograph/react';\n"@
            + function_import_statement + "\nexport type {ExtractSecondParam};\n"@,
        ReaderArtifactKind::Refetch => refetch_output_type_import() + output_type_text(
            function_import_statement,
            object_name,
            field_name,
            output_type,
        ),
    }
}

/// The three artifacts of a client field: the reader module with the block
/// of reader imports, the parameter-type module with the block of output-type
/// imports, and the output-type module.
pub open spec fn reader_artifacts(
    kind: ReaderArtifactKind,
    relative_directory: Seq<char>,
    object_name: Seq<char>,
    field_name: Seq<char>,
    function_import_statement: Seq<char>,
    reader_imports: Seq<ImportKey>,
    param_type_imports: Seq<ImportKey>,
    reader_ast: Seq<char>,
    client_field_parameter_type: Seq<char>,
    output_type: Seq<char>,
) -> Seq<ArtifactText> {
    artifact_triple(
        relative_directory,
        reader_module_text(
            kind,
            object_name,
            field_name,
            function_import_statement,
            import_block(reader_imports, ImportedFileCategory::ResolverReader),
            reader_ast,
        ),
        param_type_module_text(
            object_name,
            field_name,
            import_block(param_type_imports, ImportedFileCategory::OutputType),
            client_field_parameter_type,
        ),
        output_type_module_text(
            kind,
            function_import_statement,
            object_name,
            field_name,
            output_type,
        ),
    )
}

/// Every field of a record has its line in the lines of the record.
pub proof fn lemma_record_field_has_its_line(
    kind: ReaderArtifactKind,
    object_name: Seq<char>,
    field_name: Seq<char>,
    fields: Seq<ReaderRecordField>,
    i: int,
)
    requires
        0 <= i < fields.len(),
    ensures
        occurs_in(
            record_lines(kind, object_name, field_name, fields),
            record_field_line(kind, object_name, field_name, fields[i]),
        ),
    decreases fields.len(),
{
    let line = record_field_line(kind, object_name, field_name, fields[i]);
    let front = record_lines(kind, object_name, field_name, fields.drop_last());
    let last_line = record_field_line(kind, object_name, field_name, fields.last());
    if i == fields.len() - 1 {
        lemma_occurs_in_itself(line);
        lemma_occurs_in_back(front, last_line, line);
    } else {
        lemma_record_field_has_its_line(kind, object_name, field_name, fields.drop_last(), i);
        lemma_occurs_in_front(front, last_line, line);
    }
}

/// What occurs in the lines of the record of a reader module occurs in the
/// module.
proof fn lemma_record_is_in_reader_module(
    kind: ReaderArtifactKind,
    object_name: Seq<char>,
    field_name: Seq<char>,
    function_import_statement: Seq<char>,
    reader_import_statement: Seq<char>,
    reader_ast: Seq<char>,
    pattern: Seq<char>,
)
    requires
        occurs_in(
            record_lines(kind, object_name, field_name, kind.record_fields()),
            pattern,
        ),
    ensures
        occurs_in(
            reader_module_text(
                kind,
                object_name,
                field_name,
                function_import_statement,
                reader_import_statement,
                reader_ast,
            ),
            pattern,
        ),
{
    let front = kind.framework_import() + param_type_import(object_name, field_name)
        + output_type_import(kind, object_name, field_name) + function_import_statement + "\n"@
        + reader_import_statement + "\n"@ + reader_ast_declaration(
        object_name,
        field_name,
        reader_ast,
    ) + artifact_opening(kind, object_name, field_name);
    let record = record_lines(kind, object_name, field_name, kind.record_fields());
    lemma_occurs_in_back(front, record, pattern);
    lemma_occurs_in_front(front + record, "};\n\nexport default artifact;\n"@, pattern);
}

/// The reader module imports the parameter type under the name under which
/// the parameter-type module declares it, whatever the kind of reader.
pub proof fn lemma_modules_agree_on_param_type(
    kind: ReaderArtifactKind,
    object_name: Seq<char>,
    field_name: Seq<char>,
    function_import_statement: Seq<char>,
    reader_import_statement: Seq<char>,
    reader_ast: Seq<char>,
    param_type_import_statement: Seq<char>,
    client_field_parameter_type: Seq<char>,
)
    ensures
        occurs_in(
            reader_module_text(
                kind,
                object_name,
                field_name,
                function_import_statement,
                reader_import_statement,
                reader_ast,
            ),
            "import { "@ + param_type_symbol(object_name, field_name)
                + " } from './param_type';\n"@,
        ),
        occurs_in(
            param_type_module_text(
                object_name,
                field_name,
                param_type_import_statement,
                client_field_parameter_type,
            ),
            "export type "@ + param_type_symbol(object_name, field_name) + " = "@,
        ),
{
    let import = param_type_import(object_name, field_name);
    let s1 = kind.framework_import() + import;
    let s2 = s1 + output_type_import(kind, object_name, field_name);
    let s3 = s2 + function_import_statement;
    let s4 = s3 + "\n"@;
    let s5 = s4 + reader_import_statement;
    let s6 = s5 + "\n"@;
    let s7 = s6 + reader_ast_declaration(object_name, field_name, reader_ast);
    let s8 = s7 + artifact_opening(kind, object_name, field_name);
    let s9 = s8 + record_lines(kind, object_name, field_name, kind.record_fields());
    lemma_occurs_in_itself(import);
    lemma_occurs_in_back(kind.framework_import(), import, import);
    lemma_occurs_in_front(s1, output_type_import(kind, object_name, field_name), import);
    lemma_occurs_in_front(s2, function_import_statement, import);
    lemma_occurs_in_front(s3, "\n"@, import);
    lemma_occurs_in_front(s4, reader_import_statement, import);
    lemma_occurs_in_front(s5, "\n"@, import);
    lemma_occurs_in_front(
        s6,
        reader_ast_declaration(object_name, field_name, reader_ast),
        import,
    );
    lemma_occurs_in_front(s7, artifact_opening(kind, object_name, field_name), import);
    lemma_occurs_in_front(
        s8,
        record_lines(kind, object_name, field_name, kind.record_fields()),
        import,
    );
    lemma_occurs_in_front(s9, "};\n\nexport default artifact;\n"@, import);

    let head = param_type_declaration_head(object_name, field_name);
    let p1 = param_type_import_statement + "\n"@;
    lemma_occurs_in_itself(head);
    lemma_occurs_in_back(p1, head, head);
    lemma_occurs_in_front(p1 + head, client_field_parameter_type, head);
    lemma_occurs_in_front(p1 + head + client_field_parameter_type, ";\n"@, head);
}

/// Where the output-type module declares the output type, it declares it
/// under the one name derived from parent type and field; the reader of a
/// plain resolver imports it under that name. The output-type module of a
/// component is not covered: it declares no type of that name.
pub proof fn lemma_modules_agree_on_output_type(
    kind: ReaderArtifactKind,
    object_name: Seq<char>,
    field_name: Seq<char>,
    function_import_statement: Seq<char>,
    reader_import_statement: Seq<char>,
    reader_ast: Seq<char>,
    output_type: Seq<char>,
)
    requires
        kind.declares_output_type(),
    ensures
        occurs_in(
            output_type_module_text(
                kind,
                function_import_statement,
                object_name,
                field_name,
                output_type,
            ),
            "export type "@ + output_type_symbol(object_name, field_name) + " = "@,
        ),
        kind == ReaderArtifactKind::Eager ==> occurs_in(
            reader_module_text(
                kind,
                object_name,
                field_name,
                function_import_statement,
                reader_import_statement,
                reader_ast,
            ),
            "import { "@ + output_type_symbol(object_name, field_name)
                + " } from './output_type';\n"@,
        ),
{
    let head = output_type_declaration_head(object_name, field_name);
    let o1 = function_import_statement + "\n"@;
    let declaration = output_type_text(
        function_import_statement,
        object_name,
        field_name,
        output_type,
    );
    lemma_occurs_in_itself(head);
    lemma_occurs_in_back(o1, head, head);
    lemma_occurs_in_front(o1 + head, output_type, head);
    lemma_occurs_in_front(o1 + head + output_type, ";"@, head);
    if kind == ReaderArtifactKind::Refetch {
        lemma_occurs_in_back(refetch_output_type_import(), declaration, head);
    }
    if kind == ReaderArtifactKind::Eager {
        let import = output_type_import(kind, object_name, field_name);
        let s1 = kind.framework_import() + param_type_import(object_name, field_name);
        let s2 = s1 + import;
        let s3 = s2 + function_import_statement;
        let s4 = s3 + "\n"@;
        let s5 = s4 + reader_import_statement;
        let s6 = s5 + "\n"@;
        let s7 = s6 + reader_ast_declaration(object_name, field_name, reader_ast);
        let s8 = s7 + artifact_opening(kind, object_name, field_name);
        let s9 = s8 + record_lines(kind, object_name, field_name, kind.record_fields());
        lemma_occurs_in_itself(import);
        lemma_occurs_in_back(s1, import, import);
        lemma_occurs_in_front(s2, function_import_statement, import);
        lemma_occurs_in_front(s3, "\n"@, import);
        lemma_occurs_in_front(s4, reader_import_statement, import);
        lemma_occurs_in_front(s5, "\n"@, import);
        lemma_occurs_in_front(
            s6,
            reader_ast_declaration(object_name, field_name, reader_ast),
            import,
        );
        lemma_occurs_in_front(s7, artifact_opening(kind, object_name, field_name), import);
        lemma_occurs_in_front(
            s8,
            record_lines(kind, object_name, field_name, kind.record_fields()),
            import,
        );
        lemma_occurs_in_front(s9, "};\n\nexport default artifact;\n"@, import);
    }
}

/// The record of a reader module follows the kind of reader. Every reader
/// module holds the `kind` line with the discriminator of its kind. The
/// record of a component has a `componentName` field, whose line names the
/// parent type and the field joined by a dot; the record of any other kind
/// has no such field.
pub proof fn lemma_record_follows_kind(
    kind: ReaderArtifactKind,
    object_name: Seq<char>,
    field_name: Seq<char>,
    function_import_statement: Seq<char>,
    reader_import_statement: Seq<char>,
    reader_ast: Seq<char>,
)
    ensures
        occurs_in(
            reader_module_text(
                kind,
                object_name,
                field_name,
                function_import_statement,
                reader_import_statement,
                reader_ast,
            ),
            "  kind: \""@ + kind.discriminator() + "\",\n"@,
        ),
        kind == ReaderArtifactKind::Component ==> occurs_in(
            reader_module_text(
                kind,
                object_name,
                field_name,
                function_import_statement,
                reader_import_statement,
                reader_ast,
            ),
            "  componentName: \""@ + (object_name + "."@ + field_name) + "\",\n"@,
        ),
        kind.record_fields().contains(ReaderRecordField::ComponentName) <==> kind
            == ReaderArtifactKind::Component,
{
    let fields = kind.record_fields();
    assert(fields[0] == ReaderRecordField::Kind);
    lemma_record_field_has_its_line(kind, object_name, field_name, fields, 0);
    lemma_record_is_in_reader_module(
        kind,
        object_name,
        field_name,
        function_import_statement,
        reader_import_statement,
        reader_ast,
        record_field_line(kind, object_name, field_name, ReaderRecordField::Kind),
    );
    if kind == ReaderArtifactKind::Component {
        assert(fields[1] == ReaderRecordField::ComponentName);
        lemma_record_field_has_its_line(kind, object_name, field_name, fields, 1);
        lemma_record_is_in_reader_module(
            kind,
            object_name,
            field_name,
            function_import_statement,
            reader_import_statement,
            reader_ast,
            record_field_line(kind, object_name, field_name, ReaderRecordField::ComponentName),
        );
    }
}

/// The output-type module of a refetch reader begins with the line that
/// imports the framework's artifact type.
pub proof fn lemma_refetch_output_type_begins_with_import(
    function_import_statement: Seq<char>,
    object_name: Seq<char>,
    field_name: Seq<char>,
    output_type: Seq<char>,
)
    ensures
        "import { RefetchQueryNormalizationArtifact } from '@isograph/react';\n"@.is_prefix_of(
            output_type_module_text(
                ReaderArtifactKind::Refetch,
                function_import_statement,
                object_name,
                field_name,
                output_type,
            ),
        ),
{
}

fn param_type_import_line(
    object_name: &IsographObjectTypeName,
    field_name: &SelectableFieldName,
) -> (line: String)
    ensures
        line@ == param_type_import(object_name@, field_name@),
{
    let symbol = reader_param_type(object_name, field_name);
    let mut line = String::from_str("import { ");
    line.append(symbol.as_str());
    line.append(" } from './param_type';\n");
    line
}

fn output_type_import_line(
    kind: ReaderArtifactKind,
    object_name: &IsographObjectTypeName,
    field_name: &SelectableFieldName,
) -> (line: String)
    ensures
        line@ == output_type_import(kind, object_name@, field_name@),
{
    match kind {
        ReaderArtifactKind::Eager => {
            let symbol = reader_output_type(object_name, field_name);
            let mut line = String::from_str("import { ");
            line.append(symbol.as_str());
            line.append(" } from './output_type';\n");
            line
        },
        _ => String::new(),
    }
}

fn reader_ast_declaration_text(
    object_name: &IsographObjectTypeName,
    field_name: &SelectableFieldName,
    reader_ast: &ReaderAst,
) -> (text: String)
    ensures
        text@ == reader_ast_declaration(object_name@, field_name@, reader_ast@),
{
    let symbol = reader_param_type(object_name, field_name);
    let mut text = String::from_str("const readerAst: ReaderAst<");
    text.append(symbol.as_str());
    text.append("> = ");
    text.append(reader_ast.0.as_str());
    text.append(";\n\n");
    text
}

fn artifact_opening_text(
    kind: ReaderArtifactKind,
    object_name: &IsographObjectTypeName,
    field_name: &SelectableFieldName,
) -> (text: String)
    ensures
        text@ == artifact_opening(kind, object_name@, field_name@),
{
    match kind {
        ReaderArtifactKind::Eager => {
            let param_type = reader_param_type(object_name, field_name);
            let output_type = reader_output_type(object_name, field_name);
            let mut text = String::from_str("const artifact: EagerReaderArtifact<\n  ");
            text.append(param_type.as_str());
            text.append(",\n  ");
            text.append(output_type.as_str());
            text.append("\n> = {\n");
            text
        },
        ReaderArtifactKind::Component => {
            let param_type = reader_param_type(object_name, field_name);
            let mut text = String::from_str("const artifact: ComponentReaderArtifact<\n  ");
            text.append(param_type.as_str());
            text.append(",\n  ExtractSecondParam<typeof resolver>\n> = {\n");
            text
        },
        ReaderArtifactKind::Refetch => String::from_str(
            "const artifact: RefetchReaderArtifact = {\n",
        ),
    }
}

fn record_field_text(
    kind: ReaderArtifactKind,
    object_name: &IsographObjectTypeName,
    field_name: &SelectableFieldName,
    field: ReaderRecordField,
) -> (line: String)
    ensures
        line@ == record_field_line(kind, object_name@, field_name@, field),
{
    match field {
        ReaderRecordField::Kind => {
            let mut line = String::from_str("  kind: \"");
            line.append(kind.kind_name());
            line.append("\",\n");
            line
        },
        ReaderRecordField::ComponentName => {
            let mut name = String::from_str(object_name.lookup());
            name.append(".");
            name.append(field_name.lookup());
            let mut line = String::from_str("  componentName: \"");
            line.append(name.as_str());
            line.append("\",\n");
            line
        },
        ReaderRecordField::Resolver => match kind {
            ReaderArtifactKind::Refetch => String::from_str("  // @ts-ignore\n  resolver,\n"),
            _ => String::from_str("  resolver,\n"),
        },
        ReaderRecordField::ReaderAst => String::from_str("  readerAst,\n"),
    }
}

fn record_text(
    kind: ReaderArtifactKind,
    object_name: &IsographObjectTypeName,
    field_name: &SelectableFieldName,
) -> (text: String)
    ensures
        text@ == record_lines(kind, object_name@, field_name@, kind.record_fields()),
{
    let fields = kind.fields();
    let mut text = String::new();
    let mut i: usize = 0;
    while i < fields.len()
        invariant
            i <= fields.len(),
            fields@ == kind.record_fields(),
            text@ == record_lines(kind, object_name@, field_name@, fields@.take(i as int)),
        decreases fields.len() - i,
    {
        proof {
            let next = fields@.take(i + 1);
            assert(next.drop_last() =~= fields@.take(i as int));
            assert(next.last() == fields@[i as int]);
        }
        let line = record_field_text(kind, object_name, field_name, fields[i]);
        text.append(line.as_str());
        i += 1;
    }
    assert(fields@.take(i as int) =~= fields@);
    text
}

/// Renders a reader module.
pub fn get_reader_text(
    kind: ReaderArtifactKind,
    object_name: &IsographObjectTypeName,
    field_name: &SelectableFieldName,
    function_import_statement: &ClientFieldFunctionImportStatement,
    reader_import_statement: &str,
    reader_ast: &ReaderAst,
) -> (content: String)
    ensures
        content@ == reader_module_text(
            kind,
            object_name@,
            field_name@,
            function_import_statement@,
            reader_import_statement@,
            reader_ast@,
        ),
{
    let param_type_import = param_type_import_line(object_name, field_name);
    let output_type_import = output_type_import_line(kind, object_name, field_name);
    let declaration = reader_ast_declaration_text(object_name, field_name, reader_ast);
    let opening = artifact_opening_text(kind, object_name, field_name);
    let record = record_text(kind, object_name, field_name);
    let mut content = String::from_str(kind.framework_import_line());
    content.append(param_type_import.as_str());
    content.append(output_type_import.as_str());
    content.append(function_import_statement.0.as_str());
    content.append("\n");
    content.append(reader_import_statement);
    content.append("\n");
    content.append(declaration.as_str());
    content.append(opening.as_str());
    content.append(record.as_str());
    content.append("};\n\nexport default artifact;\n");
    content
}

/// Renders a parameter-type module.
pub fn get_param_type_text(
    object_name: &IsographObjectTypeName,
    field_name: &SelectableFieldName,
    param_type_import_statement: &str,
    client_field_parameter_type: &ClientFieldParameterType,
) -> (content: String)
    ensures
        content@ == param_type_module_text(
            object_name@,
            field_name@,
            param_type_import_statement@,
            client_field_parameter_type@,
        ),
{
    let symbol = reader_param_type(object_name, field_name);
    let mut head = String::from_str("export type ");
    head.append(symbol.as_str());
    head.append(" = ");
    let mut content = String::from_str(param_type_import_statement);
    content.append("\n");
    content.append(head.as_str());
    content.append(client_field_parameter_type.0.as_str());
    content.append(";\n");
    content
}

/// Renders the import of the function followed by the declaration of the
/// output type.
pub fn get_output_type_text(
    function_import_statement: &ClientFieldFunctionImportStatement,
    parent_type_name: &IsographObjectTypeName,
    field_name: &SelectableFieldName,
    output_type: &ClientFieldOutputType,
) -> (content: String)
    ensures
        content@ == output_type_text(
            function_import_statement@,
            parent_type_name@,
            field_name@,
            output_type@,
        ),
{
    let symbol = reader_output_type(parent_type_name, field_name);
    let mut head = String::from_str("export type ");
    head.append(symbol.as_str());
    head.append(" = ");
    let mut content = String::from_str(function_import_statement.0.as_str());
    content.append("\n");
    content.append(head.as_str());
    content.append(output_type.0.as_str());
    content.append(";");
    content
}

/// Renders an output-type module.
pub fn get_output_type_module_text(
    kind: ReaderArtifactKind,
    function_import_statement: &ClientFieldFunctionImportStatement,
    parent_type_name: &IsographObjectTypeName,
    field_name: &SelectableFieldName,
    output_type: &ClientFieldOutputType,
) -> (content: String)
    ensures
        content@ == output_type_module_text(
            kind,
            function_import_statement@,
            parent_type_name@,
            field_name@,
            output_type@,
        ),
{
    match kind {
        ReaderArtifactKind::Eager => get_output_type_text(
            function_import_statement,
            parent_type_name,
            field_name,
            output_type,
        ),
        ReaderArtifactKind::Component => {
            let mut content = String::from_str(
                "import type {ExtractSecondParam, RefetchQueryNormalizationArtifact} from '@isograph/react';\n",
            );
            content.append(function_import_statement.0.as_str());
            content.append("\nexport type {ExtractSecondParam};\n");
            content
        },
        ReaderArtifactKind::Refetch => {
            let declaration = get_output_type_text(
                function_import_statement,
                parent_type_name,
                field_name,
                output_type,
            );
            let mut content = String::from_str(
                "import { RefetchQueryNormalizationArtifact } from '@isograph/react';\n",
            );
            content.append(declaration.as_str());
            content
        },
    }
}

} // verus!
