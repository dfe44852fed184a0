//! Synthesis of the schema tree from a classified shape and a strategy.

use vstd::prelude::*;

use crate::classify::{
    enum_kind, lemma_struct_variants_all_record, spec_enum_kind, variant_kind, EnumKind,
    VariantKind,
};
use crate::error::{DeriveError, DeriveErrorV, UnsupportedShape, UnsupportedShapeV};
use crate::schema::{
    entries_view, lemma_entries_view, lemma_schemas_view, lemma_strings_view, schema_view,
    strings_view, Schema, SchemaV,
};
use crate::shape::{
    fields_shape_view, lemma_variants_view, variant_view, variants_view, FieldsShape,
    FieldsShapeV, TypeDefV, VariantDef, VariantV,
};
use crate::strategy::{TagStrategy, TagStrategyV};

verus! {

/// The view of a derivation result.
pub open spec fn derived_view(result: Result<Schema, DeriveError>) -> Result<
    SchemaV,
    DeriveErrorV,
> {
    match result {
        Ok(schema) => Ok(schema_view(schema)),
        Err(e) => Err(e@),
    }
}

/// The object schema for a list of named fields: every field is a required
/// property, there are no optional properties.
pub open spec fn spec_named_fields(
    fields: Seq<(Seq<char>, SchemaV)>,
    additional: bool,
) -> SchemaV {
    SchemaV::Properties {
        required: fields,
        optional: Seq::empty(),
        additional_properties: additional,
    }
}

/// The schema derived for a record with the given fields.
///
/// A record with at least one named field becomes an object schema; a record
/// with exactly one unnamed field is transparent (its schema is the inner
/// sub-schema, unmodified); every other shape is rejected.
pub open spec fn spec_struct_schema(fields: FieldsShapeV) -> Result<SchemaV, DeriveErrorV> {
    match fields {
        FieldsShapeV::Named(entries) => if entries.len() == 0 {
            Err(DeriveErrorV::Unsupported(UnsupportedShapeV::EmptyNamedRecord))
        } else {
            Ok(spec_named_fields(entries, true))
        },
        FieldsShapeV::Unnamed(schemas) => if schemas.len() == 1 {
            Ok(schemas[0])
        } else {
            Err(DeriveErrorV::Unsupported(UnsupportedShapeV::MultiFieldTuple))
        },
        FieldsShapeV::Unit => Err(
            DeriveErrorV::Unsupported(UnsupportedShapeV::UnitRecord),
        ),
    }
}

/// The names of a union's variants, in declaration order.
pub open spec fn variant_names(variants: Seq<VariantV>) -> Seq<Seq<char>> {
    variants.map_values(|v: VariantV| v.name)
}

/// The named fields of a record-like variant (the empty list for any other
/// shape; synthesis only applies this to record-like variants).
pub open spec fn named_fields_of(fields: FieldsShapeV) -> Seq<(Seq<char>, SchemaV)> {
    match fields {
        FieldsShapeV::Named(entries) => entries,
        _ => Seq::empty(),
    }
}

/// The discriminator mapping of a record-variant union: each variant name
/// mapped to the object schema of its fields.
pub open spec fn spec_variant_mapping(variants: Seq<VariantV>) -> Seq<(Seq<char>, SchemaV)> {
    variants.map_values(
        |v: VariantV| (v.name, spec_named_fields(named_fields_of(v.fields), true)),
    )
}

/// The schema derived for a union with the given variants under the given
/// strategy.
///
/// A unit-variant union becomes an enumeration of the variant names, nested
/// under the tag property when the strategy is internal. A record-variant
/// union requires an internal tag and becomes a discriminator schema mapping
/// each variant name to the object schema of its fields.
pub open spec fn spec_enum_schema(variants: Seq<VariantV>, strategy: TagStrategyV) -> Result<
    SchemaV,
    DeriveErrorV,
> {
    match spec_enum_kind(variants) {
        Err(e) => Err(e),
        Ok(EnumKind::UnitVariants) => {
            let enum_schema = SchemaV::Enum { values: variant_names(variants) };
            match strategy {
                TagStrategyV::External => Ok(enum_schema),
                TagStrategyV::Internal(tag) => Ok(
                    SchemaV::Properties {
                        required: seq![(tag, enum_schema)],
                        optional: Seq::empty(),
                        additional_properties: true,
                    },
                ),
            }
        },
        Ok(EnumKind::StructVariants) => match strategy {
            TagStrategyV::External => Err(DeriveErrorV::MissingDiscriminator),
            TagStrategyV::Internal(tag) => Ok(
                SchemaV::Discriminator { tag, mapping: spec_variant_mapping(variants) },
            ),
        },
    }
}

/// The schema derived for a type of the given layout under the given
/// strategy. A record's derivation ignores the strategy.
pub open spec fn spec_derive(def: TypeDefV, strategy: TagStrategyV) -> Result<
    SchemaV,
    DeriveErrorV,
> {
    match def {
        TypeDefV::Record { fields } => spec_struct_schema(fields),
        TypeDefV::Union { variants } => spec_enum_schema(variants, strategy),
    }
}

/// Builds the object schema for a list of named fields.
pub fn gen_named_fields(fields: Vec<(String, Schema)>, additional: bool) -> (schema: Schema)
    ensures
        schema_view(schema) == spec_named_fields(entries_view(fields@), additional),
{
    let optional: Vec<(String, Schema)> = Vec::new();
    Schema::Properties { required: fields, optional, additional_properties: additional }
}

/// Extracts the named fields of a shape known to carry them.
pub fn unwrap_fields_named(fields: FieldsShape) -> (entries: Vec<(String, Schema)>)
    requires
        fields is Named,
    ensures
        fields_shape_view(fields) == FieldsShapeV::Named(entries_view(entries@)),
{
    match fields {
        FieldsShape::Named(entries) => entries,
        _ => vstd::pervasive::unreached(),
    }
}

/// Derives the schema for a record with the given fields.
pub fn gen_struct_schema(fields: FieldsShape) -> (result: Result<Schema, DeriveError>)
    ensures
        derived_view(result) == spec_struct_schema(fields_shape_view(fields)),
{
    match fields {
        FieldsShape::Named(entries) => {
            proof {
                lemma_entries_view(entries@);
            }
            if entries.len() == 0 {
                Err(
                    DeriveError::Unsupported(
                        UnsupportedShape::EmptyNamedRecord,
                    ),
                )
            } else {
                Ok(gen_named_fields(entries, true))
            }
        },
        FieldsShape::Unnamed(mut schemas) => {
            proof {
                lemma_schemas_view(schemas@);
            }
            if schemas.len() == 1 {
                Ok(schemas.remove(0))
            } else {
                Err(
                    DeriveError::Unsupported(UnsupportedShape::MultiFieldTuple),
                )
            }
        },
        FieldsShape::Unit => Err(
            DeriveError::Unsupported(UnsupportedShape::UnitRecord),
        ),
    }
}

/// Derives the schema for a union with the given variants under the given
/// strategy.
pub fn gen_enum_schema(variants: Vec<VariantDef>, strategy: &TagStrategy) -> (result: Result<
    Schema,
    DeriveError,
>)
    ensures
        derived_view(result) == spec_enum_schema(variants_view(variants@), strategy@),
{
    let ghost vs = variants_view(variants@);
    let kind = match enum_kind(&variants) {
        Ok(kind) => kind,
        Err(e) => {
            return Err(e);
        },
    };
    match kind {
        EnumKind::UnitVariants => {
            let mut values: Vec<String> = Vec::new();
            let mut i: usize = 0;
            while i < variants.len()
                invariant
                    vs == variants_view(variants@),
                    i <= variants.len(),
                    values@.len() == i,
                    forall|j: int| 0 <= j < i ==> #[trigger] values@[j]@ == vs[j].name,
                decreases variants.len() - i,
            {
                proof {
                    lemma_variants_view(variants@);
                }
                values.push(variants[i].name.clone());
                i += 1;
            }
            proof {
                lemma_variants_view(variants@);
                lemma_strings_view(values@);
                assert(strings_view(values@) =~= variant_names(vs));
            }
            let enum_schema = Schema::Enum { values };
            match strategy {
                TagStrategy::External => Ok(enum_schema),
                TagStrategy::Internal(tag) => {
                    let mut required: Vec<(String, Schema)> = Vec::new();
                    required.push((tag.clone(), enum_schema));
                    proof {
                        lemma_entries_view(required@);
                        assert(entries_view(required@) =~= seq![
                            (tag@, SchemaV::Enum { values: variant_names(vs) }),
                        ]);
                    }
                    let optional: Vec<(String, Schema)> = Vec::new();
                    Ok(
                        Schema::Properties {
                            required,
                            optional,
                            additional_properties: true,
                        },
                    )
                },
            }
        },
        EnumKind::StructVariants => {
            let tag = match strategy {
                TagStrategy::External => {
                    return Err(DeriveError::MissingDiscriminator);
                },
                TagStrategy::Internal(tag) => tag.clone(),
            };
            proof {
                lemma_struct_variants_all_record(vs);
            }
            let ghost orig = variants@;
            let mut rest = variants;
            let total = rest.len();
            proof {
                assert(total == orig.len());
            }
            let mut mapping: Vec<(String, Schema)> = Vec::new();
            let mut k: usize = 0;
            while rest.len() > 0
                invariant
                    vs == variants_view(orig),
                    k + rest@.len() == orig.len(),
                    orig.len() <= usize::MAX,
                    rest@ =~= orig.subrange(k as int, orig.len() as int),
                    entries_view(mapping@) =~= spec_variant_mapping(vs).take(k as int),
                    mapping@.len() == k,
                    forall|j: int|
                        0 <= j < vs.len() ==> variant_kind(#[trigger] vs[j])
                            == VariantKind::RecordLike,
                decreases rest@.len(),
            {
                proof {
                    lemma_variants_view(orig);
                    assert(rest@[0] == orig[k as int]);
                    assert(variant_view(rest@[0]) == vs[k as int]);
                }
                let variant = rest.remove(0);
                proof {
                    assert(vs[k as int].fields == fields_shape_view(variant.fields));
                    assert(variant.fields is Named);
                }
                let name = variant.name;
                let entries = unwrap_fields_named(variant.fields);
                let variant_schema = gen_named_fields(entries, true);
                let ghost old_mapping = mapping@;
                mapping.push((name, variant_schema));
                k += 1;
                proof {
                    lemma_entries_view(old_mapping);
                    lemma_entries_view(mapping@);
                    assert(entries_view(mapping@) =~= spec_variant_mapping(vs).take(k as int));
                }
            }
            proof {
                lemma_variants_view(orig);
                assert(spec_variant_mapping(vs).take(k as int) =~= spec_variant_mapping(vs));
            }
            Ok(Schema::Discriminator { tag, mapping })
        },
    }
}

} // verus!
