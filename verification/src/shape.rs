//! The declared layout of a type, as the front-end hands it to derivation.
//!
//! Every member type has already been resolved to its sub-schema by the
//! caller's registry, so a field carries a [`Schema`] where the declaration
//! had a type reference.

use vstd::prelude::*;

use crate::schema::{entries_view, schemas_view, Schema, SchemaV};

verus! {

/// The fields of a record or of one union variant.
#[derive(Debug, PartialEq, Eq)]
pub enum FieldsShape {
    /// Named fields, in declaration order, each with its member type's
    /// sub-schema.
    Named(Vec<(String, Schema)>),
    /// Positional (unnamed) fields, each as its member type's sub-schema.
    Unnamed(Vec<Schema>),
    /// No fields at all.
    Unit,
}

/// One variant of a union, with its fields.
#[derive(Debug, PartialEq, Eq)]
pub struct VariantDef {
    pub name: String,
    pub fields: FieldsShape,
}

/// The layout of one type: a record or a tagged union.
#[derive(Debug, PartialEq, Eq)]
pub enum TypeDef {
    /// A record (struct) with the given fields.
    Record { fields: FieldsShape },
    /// A tagged union (enum) with the given variants, in declaration order.
    Union { variants: Vec<VariantDef> },
}

/// The mathematical value of a [`FieldsShape`].
pub enum FieldsShapeV {
    Named(Seq<(Seq<char>, SchemaV)>),
    Unnamed(Seq<SchemaV>),
    Unit,
}

/// The mathematical value of a [`VariantDef`].
pub struct VariantV {
    pub name: Seq<char>,
    pub fields: FieldsShapeV,
}

/// The mathematical value of a [`TypeDef`].
pub enum TypeDefV {
    Record { fields: FieldsShapeV },
    Union { variants: Seq<VariantV> },
}

pub open spec fn fields_shape_view(fields: FieldsShape) -> FieldsShapeV {
    match fields {
        FieldsShape::Named(entries) => FieldsShapeV::Named(entries_view(entries@)),
        FieldsShape::Unnamed(schemas) => FieldsShapeV::Unnamed(schemas_view(schemas@)),
        FieldsShape::Unit => FieldsShapeV::Unit,
    }
}

pub open spec fn variant_view(variant: VariantDef) -> VariantV {
    VariantV { name: variant.name@, fields: fields_shape_view(variant.fields) }
}

/// The view of a sequence of variants, element by element.
pub open spec fn variants_view(variants: Seq<VariantDef>) -> Seq<VariantV>
    decreases variants.len(),
{
    if variants.len() == 0 {
        Seq::empty()
    } else {
        seq![variant_view(variants[0])] + variants_view(variants.drop_first())
    }
}

impl View for FieldsShape {
    type V = FieldsShapeV;

    open spec fn view(&self) -> FieldsShapeV {
        fields_shape_view(*self)
    }
}

impl View for VariantDef {
    type V = VariantV;

    open spec fn view(&self) -> VariantV {
        variant_view(*self)
    }
}

impl View for TypeDef {
    type V = TypeDefV;

    open spec fn view(&self) -> TypeDefV {
        match *self {
            TypeDef::Record { fields } => TypeDefV::Record { fields: fields_shape_view(fields) },
            TypeDef::Union { variants } => TypeDefV::Union { variants: variants_view(variants@) },
        }
    }
}

pub proof fn lemma_variants_view(variants: Seq<VariantDef>)
    ensures
        variants_view(variants).len() == variants.len(),
        forall|i: int| 0 <= i < variants.len() ==> #[trigger] variants_view(variants)[i]
            == variant_view(variants[i]),
    decreases variants.len(),
{
    if variants.len() > 0 {
        lemma_variants_view(variants.drop_first());
        assert forall|i: int| 0 <= i < variants.len() implies #[trigger] variants_view(variants)[i]
            == variant_view(variants[i]) by {
            if i > 0 {
                assert(variants.drop_first()[i - 1] == variants[i]);
            }
        }
    }
}

} // verus!
