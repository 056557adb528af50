//! The types a model's field can have.

use vstd::prelude::*;

verus! {

/// The definition of an enum: its name and its members.
#[derive(Debug)]
pub struct EnumDefinition {
    pub name: String,
    pub choices: Vec<String>,
}

/// What an [`EnumDefinition`] is.
pub struct EnumModel {
    pub name: Seq<char>,
    pub choices: Seq<Seq<char>>,
}

pub open spec fn names_model(names: Seq<String>) -> Seq<Seq<char>> {
    Seq::new(names.len(), |i: int| names[i]@)
}

impl View for EnumDefinition {
    type V = EnumModel;

    open spec fn view(&self) -> EnumModel {
        EnumModel { name: self.name@, choices: names_model(self.choices@) }
    }
}

impl Clone for EnumDefinition {
    fn clone(&self) -> (copy: EnumDefinition)
        ensures
            copy@ == self@,
    {
        let mut choices: Vec<String> = Vec::new();
        let mut i: usize = 0;
        while i < self.choices.len()
            invariant
                i <= self.choices.len(),
                choices@.len() == i,
                forall|j: int| 0 <= j < i ==> choices@[j]@ == self.choices@[j]@,
            decreases self.choices.len() - i,
        {
            choices.push(self.choices[i].clone());
            i += 1;
        }
        assert(names_model(choices@) =~= names_model(self.choices@));
        EnumDefinition { name: self.name.clone(), choices }
    }
}

impl EnumDefinition {
    /// The name of the enum.
    pub fn name(&self) -> (name: &str)
        ensures
            name@ == self@.name,
    {
        self.name.as_str()
    }
}

/// Whether a field may be left out.
#[derive(Clone, Copy, Debug, PartialEq, Eq, Structural)]
pub enum Optionality {
    Optional,
    Required,
}

impl Optionality {
    pub open spec fn optional(self) -> bool {
        self == Optionality::Optional
    }

    /// Whether the field may be left out.
    pub fn is_optional(&self) -> (b: bool)
        ensures
            b == self.optional(),
    {
        match self {
            Optionality::Optional => true,
            Optionality::Required => false,
        }
    }
}

/// What a collection holds: the type of its elements and whether one may be missing.
#[derive(Debug)]
pub struct Field {
    pub field_type: FieldType,
    pub optionality: Optionality,
}

/// The type of a field.
#[derive(Debug)]
pub enum FieldType {
    ObjectId,
    Bool,
    I32,
    I64,
    F32,
    F64,
    Decimal,
    String,
    Date,
    DateTime,
    Enum(EnumDefinition),
    Vec(Box<Field>),
    HashMap(Box<Field>),
    BTreeMap(Box<Field>),
    Object(String),
}

/// What a [`Field`] is.
pub struct FieldModel {
    pub field_type: FieldTypeModel,
    pub optional: bool,
}

/// What a [`FieldType`] is.
pub enum FieldTypeModel {
    ObjectId,
    Bool,
    I32,
    I64,
    F32,
    F64,
    Decimal,
    String,
    Date,
    DateTime,
    Enum(EnumModel),
    Vec(Box<FieldModel>),
    HashMap(Box<FieldModel>),
    BTreeMap(Box<FieldModel>),
    Object(Seq<char>),
}

pub open spec fn field_model(field: Field) -> FieldModel
    decreases field,
{
    FieldModel {
        field_type: field_type_model(field.field_type),
        optional: field.optionality.optional(),
    }
}

pub open spec fn field_type_model(field_type: FieldType) -> FieldTypeModel
    decreases field_type,
{
    match field_type {
        FieldType::ObjectId => FieldTypeModel::ObjectId,
        FieldType::Bool => FieldTypeModel::Bool,
        FieldType::I32 => FieldTypeModel::I32,
        FieldType::I64 => FieldTypeModel::I64,
        FieldType::F32 => FieldTypeModel::F32,
        FieldType::F64 => FieldTypeModel::F64,
        FieldType::Decimal => FieldTypeModel::Decimal,
        FieldType::String => FieldTypeModel::String,
        FieldType::Date => FieldTypeModel::Date,
        FieldType::DateTime => FieldTypeModel::DateTime,
        FieldType::Enum(definition) => FieldTypeModel::Enum(definition@),
        FieldType::Vec(inner) => FieldTypeModel::Vec(Box::new(field_model(*inner))),
        FieldType::HashMap(inner) => FieldTypeModel::HashMap(Box::new(field_model(*inner))),
        FieldType::BTreeMap(inner) => FieldTypeModel::BTreeMap(Box::new(field_model(*inner))),
        FieldType::Object(name) => FieldTypeModel::Object(name@),
    }
}

impl View for Field {
    type V = FieldModel;

    open spec fn view(&self) -> FieldModel {
        field_model(*self)
    }
}

impl View for FieldType {
    type V = FieldTypeModel;

    open spec fn view(&self) -> FieldTypeModel {
        field_type_model(*self)
    }
}

impl Field {
    /// The type of the field.
    pub fn field_type(&self) -> (field_type: &FieldType)
        ensures
            *field_type == self.field_type,
    {
        &self.field_type
    }
}

} // verus!
