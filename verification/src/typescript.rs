//! The TypeScript types a client uses for a field: the type of its value, of
//! what creates it, of what updates it and of what filters by it. A field type
//! that has no TypeScript type is refused.

use vstd::prelude::*;
use vstd::string::StringExecFns;
use crate::database_type::unhandled;
use crate::error::Error;
use crate::field_type::{FieldType, FieldTypeModel};

verus! {

/// A text followed, where `optional` holds, by a suffix.
pub open spec fn with_suffix(base: Seq<char>, optional: bool, suffix: Seq<char>) -> Seq<char> {
    if optional {
        base + suffix
    } else {
        base
    }
}

/// The type of a field's value, without what an optional one adds.
pub open spec fn value_base(field_type: FieldTypeModel) -> Option<Seq<char>>
    decreases field_type, 0nat,
{
    match field_type {
        FieldTypeModel::ObjectId => Some("string"@),
        FieldTypeModel::String => Some("string"@),
        FieldTypeModel::Date => Some("string"@),
        FieldTypeModel::DateTime => Some("Date"@),
        FieldTypeModel::Bool => Some("boolean"@),
        FieldTypeModel::I32 => Some("number"@),
        FieldTypeModel::I64 => Some("number"@),
        FieldTypeModel::F32 => Some("number"@),
        FieldTypeModel::F64 => Some("number"@),
        FieldTypeModel::Decimal => Some("Decimal"@),
        FieldTypeModel::Enum(definition) => Some(definition.name),
        FieldTypeModel::Vec(inner) => match value_type(inner.field_type, inner.optional) {
            Some(element) => Some(element + "[]"@),
            None => None,
        },
        FieldTypeModel::HashMap(_) => None,
        FieldTypeModel::BTreeMap(_) => None,
        FieldTypeModel::Object(name) => Some(name),
    }
}

/// The type of a field's value: an optional one may be `undefined`.
pub open spec fn value_type(field_type: FieldTypeModel, optional: bool) -> Option<Seq<char>>
    decreases field_type, 1nat,
{
    match value_base(field_type) {
        Some(base) => Some(with_suffix(base, optional, " | undefined"@)),
        None => None,
    }
}

/// The type of what creates a field, without what an optional one adds.
pub open spec fn create_base(field_type: FieldTypeModel, server_mode: bool) -> Option<Seq<char>> {
    match field_type {
        FieldTypeModel::ObjectId => Some("string"@),
        FieldTypeModel::String => Some("string"@),
        FieldTypeModel::Decimal => Some(
            if server_mode {
                "Decimal"@
            } else {
                "string | Decimal"@
            },
        ),
        FieldTypeModel::Date => Some("string"@),
        FieldTypeModel::DateTime => Some("string"@),
        FieldTypeModel::Bool => Some("boolean"@),
        FieldTypeModel::I32 => Some("number"@),
        FieldTypeModel::I64 => Some("number"@),
        FieldTypeModel::F32 => Some("number"@),
        FieldTypeModel::F64 => Some("number"@),
        FieldTypeModel::Enum(definition) => Some(definition.name),
        FieldTypeModel::Vec(inner) => match value_type(inner.field_type, inner.optional) {
            Some(element) => Some(element + "[]"@),
            None => None,
        },
        FieldTypeModel::HashMap(_) => None,
        FieldTypeModel::BTreeMap(_) => None,
        FieldTypeModel::Object(name) => Some(name),
    }
}

/// The type of what creates a field: an optional one may be `null`.
pub open spec fn create_input_type(field_type: FieldTypeModel, optional: bool, server_mode: bool)
    -> Option<Seq<char>> {
    match create_base(field_type, server_mode) {
        Some(base) => Some(with_suffix(base, optional, " | null"@)),
        None => None,
    }
}

/// The type of what filters by a scalar field, before `Filter` is added to it.
pub open spec fn scalar_filter_base(field_type: FieldTypeModel, server_mode: bool) -> Option<
    Seq<char>,
> {
    match field_type {
        FieldTypeModel::ObjectId => Some("string | ObjectId"@),
        FieldTypeModel::String => Some("string | String"@),
        FieldTypeModel::Date => Some("string | Date"@),
        FieldTypeModel::DateTime => Some("string | Date | DateTime"@),
        FieldTypeModel::Bool => Some("boolean | Bool"@),
        FieldTypeModel::I32 => Some("number | Number"@),
        FieldTypeModel::I64 => Some("number | Number"@),
        FieldTypeModel::F32 => Some("number | Number"@),
        FieldTypeModel::F64 => Some("number | Number"@),
        FieldTypeModel::Decimal => Some(
            if server_mode {
                "Decimal | Decimal"@
            } else {
                "string | Decimal | Decimal"@
            },
        ),
        FieldTypeModel::Object(_) => Some("undefined | Unimplemented"@),
        _ => None,
    }
}

/// The type of what filters by a field of a generic kind: the kind of filter
/// takes the type `of` as its argument.
pub open spec fn generic_filter(
    value: Seq<char>,
    of: Seq<char>,
    kind: Seq<char>,
    optional: bool,
) -> Seq<char> {
    if optional {
        value + " | "@ + kind + "NullableFilter<"@ + of + "> | null"@
    } else {
        value + " | "@ + kind + "Filter<"@ + of + ">"@
    }
}

/// The type of what filters by a field.
pub open spec fn filter_type(field_type: FieldTypeModel, optional: bool, server_mode: bool)
    -> Option<Seq<char>> {
    match field_type {
        FieldTypeModel::Enum(definition) => Some(
            generic_filter(definition.name, definition.name, "Enum"@, optional),
        ),
        FieldTypeModel::Vec(inner) => match create_input_type(inner.field_type, false, server_mode) {
            Some(element) => Some(generic_filter(element + "[]"@, element, "Array"@, optional)),
            None => None,
        },
        _ => match scalar_filter_base(field_type, server_mode) {
            Some(base) => Some(
                if optional {
                    base + "NullableFilter | null"@
                } else {
                    base + "Filter"@
                },
            ),
            None => None,
        },
    }
}

/// The name and the type argument of the operations that update a field.
pub open spec fn update_operation_parts(field_type: FieldTypeModel, server_mode: bool) -> Option<
    (Seq<char>, Seq<char>),
> {
    match field_type {
        FieldTypeModel::ObjectId => Some(("ObjectId"@, ""@)),
        FieldTypeModel::String => Some(("String"@, ""@)),
        FieldTypeModel::Date => Some(("Date"@, ""@)),
        FieldTypeModel::DateTime => Some(("DateTime"@, ""@)),
        FieldTypeModel::Decimal => Some(("Decimal"@, ""@)),
        FieldTypeModel::Bool => Some(("Bool"@, ""@)),
        FieldTypeModel::I32 => Some(("Number"@, ""@)),
        FieldTypeModel::I64 => Some(("Number"@, ""@)),
        FieldTypeModel::F32 => Some(("Number"@, ""@)),
        FieldTypeModel::F64 => Some(("Number"@, ""@)),
        FieldTypeModel::Enum(definition) => Some(("Enum"@, "<"@ + definition.name + ">"@)),
        FieldTypeModel::Vec(inner) => match create_input_type(inner.field_type, false, server_mode) {
            Some(element) => Some(("Array"@, "<"@ + element + ">"@)),
            None => None,
        },
        _ => None,
    }
}

/// The type of the operations that update a field.
pub open spec fn update_operation_input(
    field_type: FieldTypeModel,
    optional: bool,
    server_mode: bool,
) -> Option<Seq<char>> {
    match update_operation_parts(field_type, server_mode) {
        Some((base, generic)) => Some(
            (if optional {
                "Nullable"@
            } else {
                ""@
            }) + base + "FieldUpdateOperationsInput"@ + generic,
        ),
        None => None,
    }
}

/// The type of what updates a field: an operation on it, or a new value.
pub open spec fn update_input_type(field_type: FieldTypeModel, optional: bool, server_mode: bool)
    -> Option<Seq<char>> {
    match (
        update_operation_input(field_type, optional, server_mode),
        create_input_type(field_type, optional, server_mode),
    ) {
        (Some(operation), Some(create)) => Some(operation + " | "@ + create),
        _ => None,
    }
}

/// The type of what updates a scalar field with a new value.
pub open spec fn scalar_update_input_type(field_type: FieldTypeModel, optional: bool) -> Option<
    Seq<char>,
> {
    create_input_type(field_type, optional, true)
}

/// Whether a result is the text `expected`, or the refusal where there is none.
pub open spec fn renders(result: Result<String, Error>, expected: Option<Seq<char>>) -> bool {
    match result {
        Ok(text) => expected == Some(text@),
        Err(e) => expected is None && e@ == unhandled(),
    }
}

fn refuse() -> (result: Result<String, Error>)
    ensures
        renders(result, None),
{
    let e = Error::internal_server_error(Vec::new(), "Unhandled.");
    assert(e@.path =~= Seq::empty());
    Err(e)
}

fn text(literal: &str) -> (out: String)
    ensures
        out@ == literal@,
{
    literal.to_owned()
}

fn value_base_of(field_type: &FieldType) -> (result: Result<String, Error>)
    ensures
        renders(result, value_base(field_type@)),
    decreases field_type, 0nat,
{
    match field_type {
        FieldType::ObjectId => Ok(text("string")),
        FieldType::String | FieldType::Date => Ok(text("string")),
        FieldType::DateTime => Ok(text("Date")),
        FieldType::Bool => Ok(text("boolean")),
        FieldType::I32 | FieldType::I64 | FieldType::F32 | FieldType::F64 => Ok(text("number")),
        FieldType::Decimal => Ok(text("Decimal")),
        FieldType::Enum(definition) => Ok(text(definition.name())),
        FieldType::Vec(internal) => match value_type_of(
            internal.field_type(),
            internal.optionality.is_optional(),
        ) {
            Ok(element) => Ok(element.concat("[]")),
            Err(e) => Err(e),
        },
        FieldType::HashMap(_) => refuse(),
        FieldType::BTreeMap(_) => refuse(),
        FieldType::Object(name) => Ok(name.clone()),
    }
}

fn value_type_of(field_type: &FieldType, optional: bool) -> (result: Result<String, Error>)
    ensures
        renders(result, value_type(field_type@, optional)),
    decreases field_type, 1nat,
{
    match value_base_of(field_type) {
        Ok(base) => if optional {
            Ok(base.concat(" | undefined"))
        } else {
            Ok(base)
        },
        Err(e) => Err(e),
    }
}

fn create_input_type_of(field_type: &FieldType, optional: bool, server_mode: bool) -> (result:
    Result<String, Error>)
    ensures
        renders(result, create_input_type(field_type@, optional, server_mode)),
{
    let base = match field_type {
        FieldType::ObjectId => Ok(text("string")),
        FieldType::String => Ok(text("string")),
        FieldType::Decimal => Ok(
            if server_mode {
                text("Decimal")
            } else {
                text("string | Decimal")
            },
        ),
        FieldType::Date | FieldType::DateTime => Ok(text("string")),
        FieldType::Bool => Ok(text("boolean")),
        FieldType::I32 | FieldType::I64 | FieldType::F32 | FieldType::F64 => Ok(text("number")),
        FieldType::Enum(definition) => Ok(text(definition.name())),
        FieldType::Vec(internal) => match value_type_of(
            internal.field_type(),
            internal.optionality.is_optional(),
        ) {
            Ok(element) => Ok(element.concat("[]")),
            Err(e) => Err(e),
        },
        FieldType::HashMap(_) => refuse(),
        FieldType::BTreeMap(_) => refuse(),
        FieldType::Object(name) => Ok(name.clone()),
    };
    match base {
        Ok(base) => if optional {
            Ok(base.concat(" | null"))
        } else {
            Ok(base)
        },
        Err(e) => Err(e),
    }
}

fn generic_filter_of(value: String, of: &str, kind: &str, optional: bool) -> (out: String)
    ensures
        out@ == generic_filter(value@, of@, kind@, optional),
{
    let start = value.concat(" | ").concat(kind);
    if optional {
        start.concat("NullableFilter<").concat(of).concat("> | null")
    } else {
        start.concat("Filter<").concat(of).concat(">")
    }
}

fn scalar_filter_of(base: &str, optional: bool) -> (result: Result<String, Error>)
    ensures
        renders(
            result,
            Some(
                if optional {
                    base@ + "NullableFilter | null"@
                } else {
                    base@ + "Filter"@
                },
            ),
        ),
{
    if optional {
        Ok(text(base).concat("NullableFilter | null"))
    } else {
        Ok(text(base).concat("Filter"))
    }
}

fn update_operation_of(base: &str, generic: &str, optional: bool) -> (result: Result<String, Error>)
    ensures
        renders(
            result,
            Some(
                (if optional {
                    "Nullable"@
                } else {
                    ""@
                }) + base@ + "FieldUpdateOperationsInput"@ + generic@,
            ),
        ),
{
    let prefix = if optional {
        "Nullable"
    } else {
        ""
    };
    Ok(text(prefix).concat(base).concat("FieldUpdateOperationsInput").concat(generic))
}

/// A type that has TypeScript types.
pub trait ToTypeScriptType {
    /// What the type is to the client.
    spec fn field_type(&self) -> FieldTypeModel;

    /// The type of a value.
    fn to_typescript_type(&self, optional: bool) -> (result: Result<String, Error>)
        ensures
            renders(result, value_type(self.field_type(), optional)),
    ;

    /// The type of what filters by a value.
    fn to_typescript_filter_type(&self, optional: bool, server_mode: bool) -> (result: Result<
        String,
        Error,
    >)
        ensures
            renders(result, filter_type(self.field_type(), optional, server_mode)),
    ;

    /// The type of what creates a value.
    fn to_typescript_create_input_type(&self, optional: bool, server_mode: bool) -> (result: Result<
        String,
        Error,
    >)
        ensures
            renders(result, create_input_type(self.field_type(), optional, server_mode)),
    ;

    /// The type of what updates a value.
    fn to_typescript_update_input_type(&self, optional: bool, server_mode: bool) -> (result: Result<
        String,
        Error,
    >)
        ensures
            renders(result, update_input_type(self.field_type(), optional, server_mode)),
    ;

    /// The type of the operations that update a value.
    fn to_typescript_update_operation_input(&self, optional: bool, server_mode: bool) -> (result:
        Result<String, Error>)
        ensures
            renders(result, update_operation_input(self.field_type(), optional, server_mode)),
    ;

    /// The type of what updates a scalar value with a new one.
    fn to_typescript_scalar_update_input_type(&self, optional: bool) -> (result: Result<
        String,
        Error,
    >)
        ensures
            renders(result, scalar_update_input_type(self.field_type(), optional)),
    ;
}

impl ToTypeScriptType for FieldType {
    open spec fn field_type(&self) -> FieldTypeModel {
        self@
    }

    fn to_typescript_type(&self, optional: bool) -> (result: Result<String, Error>) {
        value_type_of(self, optional)
    }

    fn to_typescript_filter_type(&self, optional: bool, server_mode: bool) -> (result: Result<
        String,
        Error,
    >) {
        match self {
            FieldType::ObjectId => scalar_filter_of("string | ObjectId", optional),
            FieldType::String => scalar_filter_of("string | String", optional),
            FieldType::Date => scalar_filter_of("string | Date", optional),
            FieldType::DateTime => scalar_filter_of("string | Date | DateTime", optional),
            FieldType::Bool => scalar_filter_of("boolean | Bool", optional),
            FieldType::I32 | FieldType::I64 | FieldType::F32 | FieldType::F64 => scalar_filter_of(
                "number | Number",
                optional,
            ),
            FieldType::Decimal => scalar_filter_of(
                if server_mode {
                    "Decimal | Decimal"
                } else {
                    "string | Decimal | Decimal"
                },
                optional,
            ),
            FieldType::Enum(definition) => {
                let name = definition.name();
                Ok(generic_filter_of(text(name), name, "Enum", optional))
            },
            FieldType::Vec(internal) => {
                match create_input_type_of(internal.field_type(), false, server_mode) {
                    Ok(create_type) => {
                        let value = create_type.clone().concat("[]");
                        Ok(generic_filter_of(value, create_type.as_str(), "Array", optional))
                    },
                    Err(e) => Err(e),
                }
            },
            FieldType::HashMap(_) => refuse(),
            FieldType::BTreeMap(_) => refuse(),
            FieldType::Object(_) => scalar_filter_of("undefined | Unimplemented", optional),
        }
    }

    fn to_typescript_create_input_type(&self, optional: bool, server_mode: bool) -> (result: Result<
        String,
        Error,
    >) {
        create_input_type_of(self, optional, server_mode)
    }

    fn to_typescript_update_input_type(&self, optional: bool, server_mode: bool) -> (result: Result<
        String,
        Error,
    >) {
        let update_operation = match self.to_typescript_update_operation_input(optional, server_mode) {
            Ok(text) => text,
            Err(e) => {
                return Err(e);
            },
        };
        let create_input = match self.to_typescript_create_input_type(optional, server_mode) {
            Ok(text) => text,
            Err(e) => {
                return Err(e);
            },
        };
        Ok(update_operation.concat(" | ").concat(create_input.as_str()))
    }

    fn to_typescript_scalar_update_input_type(&self, optional: bool) -> (result: Result<
        String,
        Error,
    >) {
        self.to_typescript_create_input_type(optional, true)
    }

    fn to_typescript_update_operation_input(&self, optional: bool, server_mode: bool) -> (result:
        Result<String, Error>) {
        match self {
            FieldType::ObjectId => update_operation_of("ObjectId", "", optional),
            FieldType::String => update_operation_of("String", "", optional),
            FieldType::Date => update_operation_of("Date", "", optional),
            FieldType::DateTime => update_operation_of("DateTime", "", optional),
            FieldType::Decimal => update_operation_of("Decimal", "", optional),
            FieldType::Bool => update_operation_of("Bool", "", optional),
            FieldType::I32 | FieldType::I64 | FieldType::F32 | FieldType::F64 => update_operation_of(
                "Number",
                "",
                optional,
            ),
            FieldType::Enum(definition) => {
                let generic = text("<").concat(definition.name()).concat(">");
                update_operation_of("Enum", generic.as_str(), optional)
            },
            FieldType::Vec(inner) => {
                match create_input_type_of(inner.field_type(), false, server_mode) {
                    Ok(create_type) => {
                        let generic = text("<").concat(create_type.as_str()).concat(">");
                        update_operation_of("Array", generic.as_str(), optional)
                    },
                    Err(e) => Err(e),
                }
            },
            _ => refuse(),
        }
    }
}

} // verus!
