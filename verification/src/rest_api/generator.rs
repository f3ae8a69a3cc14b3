//! The schemas that the REST surface is generated from.

use vstd::prelude::*;
use crate::rest_api::openapi_gen::FieldType;

verus! {

/// A field of a collection.
#[derive(Debug, Clone, PartialEq, Eq)]
pub struct FieldDef {
    /// The field's name.
    pub name: String,
    /// The field's type.
    pub field_type: FieldType,
    /// Whether a record has to hold the field.
    pub required: bool,
    /// Whether the field is the primary key.
    pub primary: bool,
    /// The field's default, as the text of a JSON value.
    pub default: Option<String>,
}

/// The schema of a collection.
#[derive(Debug, Clone, PartialEq, Eq)]
pub struct SchemaDef {
    /// The collection's name.
    pub name: String,
    /// The collection's fields.
    pub fields: Vec<FieldDef>,
    /// The row-level security predicate, if the collection has one.
    pub rls_policy: Option<String>,
}

/// A field as a mathematical value.
pub struct FieldModel {
    pub name: Seq<char>,
    pub field_type: FieldType,
    pub required: bool,
    pub primary: bool,
    pub default: Option<Seq<char>>,
}

impl View for FieldDef {
    type V = FieldModel;

    open spec fn view(&self) -> FieldModel {
        FieldModel {
            name: self.name@,
            field_type: self.field_type,
            required: self.required,
            primary: self.primary,
            default: match self.default {
                Some(text) => Some(text@),
                None => None,
            },
        }
    }
}

/// The fields as mathematical values.
pub open spec fn field_models(fields: Seq<FieldDef>) -> Seq<FieldModel> {
    fields.map_values(|f: FieldDef| f@)
}

} // verus!
