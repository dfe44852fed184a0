//! The laws that derivation obeys, stated over the model and proved once
//! and for all.

use vstd::prelude::*;

use crate::classify::{
    first_of_kind, has_kind, lemma_first_of_kind_none, lemma_first_of_kind_props,
    lemma_first_of_kind_same_kinds, lemma_no_kind, spec_enum_kind, variant_kind, VariantKind,
};
use crate::error::{DeriveErrorV, UnsupportedShapeV};
use crate::schema::SchemaV;
use crate::shape::{FieldsShapeV, TypeDefV, VariantV};
use crate::strategy::TagStrategyV;
use crate::synth::{
    named_fields_of, spec_derive, spec_named_fields, spec_variant_mapping, variant_names,
};

verus! {

/// A record with at least one named field derives an object schema whose
/// required properties are exactly its fields, in order, with no optional
/// properties and with additional properties tolerated. The strategy plays
/// no part in a record's schema.
pub proof fn lemma_record_properties(fields: Seq<(Seq<char>, SchemaV)>, strategy: TagStrategyV)
    requires
        fields.len() >= 1,
    ensures
        spec_derive(TypeDefV::Record { fields: FieldsShapeV::Named(fields) }, strategy) == Ok::<
            SchemaV,
            DeriveErrorV,
        >(
            SchemaV::Properties {
                required: fields,
                optional: Seq::empty(),
                additional_properties: true,
            },
        ),
{
}

/// Transparency of newtype wrappers: a record with exactly one unnamed
/// field derives the inner member's schema itself, unmodified, under any
/// strategy.
pub proof fn lemma_newtype_transparent(inner: SchemaV, strategy: TagStrategyV)
    ensures
        spec_derive(TypeDefV::Record { fields: FieldsShapeV::Unnamed(seq![inner]) }, strategy)
            == Ok::<SchemaV, DeriveErrorV>(inner),
{
}

/// A union of unit-like variants derives, externally tagged, the
/// enumeration of its variant names; internally tagged, an object schema
/// whose only required property is the tag, holding that same enumeration.
pub proof fn lemma_unit_union(variants: Seq<VariantV>, tag: Seq<char>)
    requires
        variants.len() >= 1,
        forall|i: int| 0 <= i < variants.len() ==> (#[trigger] variants[i]).fields is Unit,
    ensures
        spec_derive(TypeDefV::Union { variants }, TagStrategyV::External) == Ok::<
            SchemaV,
            DeriveErrorV,
        >(SchemaV::Enum { values: variant_names(variants) }),
        spec_derive(TypeDefV::Union { variants }, TagStrategyV::Internal(tag)) == Ok::<
            SchemaV,
            DeriveErrorV,
        >(
            SchemaV::Properties {
                required: seq![(tag, SchemaV::Enum { values: variant_names(variants) })],
                optional: Seq::empty(),
                additional_properties: true,
            },
        ),
{
    assert forall|i: int| 0 <= i < variants.len() implies variant_kind(#[trigger] variants[i])
        == VariantKind::UnitLike by {}
    lemma_first_of_kind_none(variants, VariantKind::TupleLike);
    lemma_first_of_kind_none(variants, VariantKind::RecordLike);
}

/// A union of record-like variants derives, under an internal tag, the
/// discriminator schema on that tag whose mapping pairs each variant name,
/// in declaration order, with the object schema of that variant's fields.
pub proof fn lemma_struct_union(variants: Seq<VariantV>, tag: Seq<char>)
    requires
        variants.len() >= 1,
        forall|i: int| 0 <= i < variants.len() ==> (#[trigger] variants[i]).fields is Named,
    ensures
        spec_derive(TypeDefV::Union { variants }, TagStrategyV::Internal(tag)) == Ok::<
            SchemaV,
            DeriveErrorV,
        >(SchemaV::Discriminator { tag, mapping: spec_variant_mapping(variants) }),
        spec_variant_mapping(variants).len() == variants.len(),
        forall|i: int| 0 <= i < variants.len() ==> #[trigger] spec_variant_mapping(variants)[i]
            == (variants[i].name, spec_named_fields(named_fields_of(variants[i].fields), true)),
{
    assert forall|i: int| 0 <= i < variants.len() implies variant_kind(#[trigger] variants[i])
        == VariantKind::RecordLike by {}
    lemma_first_of_kind_none(variants, VariantKind::TupleLike);
    lemma_first_of_kind_none(variants, VariantKind::UnitLike);
}

/// Idempotence: derivation is a function of the layout and the strategy
/// alone, so deriving the same type twice in one session yields structurally
/// identical schemas.
pub proof fn lemma_derive_deterministic(
    def1: TypeDefV,
    strategy1: TagStrategyV,
    def2: TypeDefV,
    strategy2: TagStrategyV,
)
    requires
        def1 == def2,
        strategy1 == strategy2,
    ensures
        spec_derive(def1, strategy1) == spec_derive(def2, strategy2),
{
}

/// Classification depends only on the variants' shapes: two unions whose
/// variants have the same kinds, position by position, classify alike —
/// names and field contents decide nothing but which example variants a
/// diagnostic cites.
pub proof fn lemma_classification_by_shape_alone(a: Seq<VariantV>, b: Seq<VariantV>)
    requires
        a.len() == b.len(),
        forall|i: int| 0 <= i < a.len() ==> variant_kind(#[trigger] a[i]) == variant_kind(b[i]),
    ensures
        spec_enum_kind(a) is Ok == spec_enum_kind(b) is Ok,
        spec_enum_kind(a) is Ok ==> spec_enum_kind(a) == spec_enum_kind(b),
{
    lemma_first_of_kind_same_kinds(a, b, VariantKind::TupleLike);
    lemma_first_of_kind_same_kinds(a, b, VariantKind::UnitLike);
    lemma_first_of_kind_same_kinds(a, b, VariantKind::RecordLike);
}

/// A union with any variant carrying positional data is rejected with
/// `TupleVariant`, citing the first such variant, whatever the other
/// variants and the strategy are.
pub proof fn lemma_tuple_variant_rejected(variants: Seq<VariantV>, strategy: TagStrategyV)
    requires
        exists|i: int| 0 <= i < variants.len() && (#[trigger] variants[i]).fields is Unnamed,
    ensures
        ({
            let f = first_of_kind(variants, VariantKind::TupleLike);
            &&& spec_derive(TypeDefV::Union { variants }, strategy) == Err::<
                SchemaV,
                DeriveErrorV,
            >(
                DeriveErrorV::Unsupported(
                    UnsupportedShapeV::TupleVariant { variant: variants[f].name },
                ),
            )
            &&& 0 <= f < variants.len()
            &&& variants[f].fields is Unnamed
            &&& forall|j: int| 0 <= j < f ==> !((#[trigger] variants[j]).fields is Unnamed)
        }),
{
    let i = choose|i: int| 0 <= i < variants.len() && (#[trigger] variants[i]).fields is Unnamed;
    if !has_kind(variants, VariantKind::TupleLike) {
        lemma_no_kind(variants, VariantKind::TupleLike);
    }
    lemma_first_of_kind_props(variants, VariantKind::TupleLike);
}

/// A union mixing unit-like and record-like variants (without any tuple
/// variant) is rejected with `MixedVariants`, citing the first variant of
/// each kind, under any strategy.
pub proof fn lemma_mixed_union_rejected(variants: Seq<VariantV>, strategy: TagStrategyV)
    requires
        forall|i: int| 0 <= i < variants.len() ==> !((#[trigger] variants[i]).fields is Unnamed),
        exists|i: int| 0 <= i < variants.len() && (#[trigger] variants[i]).fields is Unit,
        exists|i: int| 0 <= i < variants.len() && (#[trigger] variants[i]).fields is Named,
    ensures
        ({
            let u = first_of_kind(variants, VariantKind::UnitLike);
            let r = first_of_kind(variants, VariantKind::RecordLike);
            &&& spec_derive(TypeDefV::Union { variants }, strategy) == Err::<
                SchemaV,
                DeriveErrorV,
            >(
                DeriveErrorV::Unsupported(
                    UnsupportedShapeV::MixedVariants {
                        unit_variant: variants[u].name,
                        struct_variant: variants[r].name,
                    },
                ),
            )
            &&& 0 <= u < variants.len() && variants[u].fields is Unit
            &&& forall|j: int| 0 <= j < u ==> !((#[trigger] variants[j]).fields is Unit)
            &&& 0 <= r < variants.len() && variants[r].fields is Named
            &&& forall|j: int| 0 <= j < r ==> !((#[trigger] variants[j]).fields is Named)
        }),
{
    let iu = choose|i: int| 0 <= i < variants.len() && (#[trigger] variants[i]).fields is Unit;
    let ir = choose|i: int| 0 <= i < variants.len() && (#[trigger] variants[i]).fields is Named;
    lemma_first_of_kind_none(variants, VariantKind::TupleLike);
    if !has_kind(variants, VariantKind::UnitLike) {
        lemma_no_kind(variants, VariantKind::UnitLike);
    }
    if !has_kind(variants, VariantKind::RecordLike) {
        lemma_no_kind(variants, VariantKind::RecordLike);
    }
    lemma_first_of_kind_props(variants, VariantKind::UnitLike);
    lemma_first_of_kind_props(variants, VariantKind::RecordLike);
}

/// A record with more than one unnamed field is rejected with
/// `MultiFieldTuple`, under any strategy.
pub proof fn lemma_multi_field_tuple_rejected(schemas: Seq<SchemaV>, strategy: TagStrategyV)
    requires
        schemas.len() >= 2,
    ensures
        spec_derive(TypeDefV::Record { fields: FieldsShapeV::Unnamed(schemas) }, strategy)
            == Err::<SchemaV, DeriveErrorV>(
            DeriveErrorV::Unsupported(UnsupportedShapeV::MultiFieldTuple),
        ),
{
}

/// A union of record-like variants derived without an internal tag is
/// rejected with `MissingDiscriminator`: an externally tagged encoding
/// cannot signal which variant's fields apply.
pub proof fn lemma_struct_union_needs_tag(variants: Seq<VariantV>)
    requires
        variants.len() >= 1,
        forall|i: int| 0 <= i < variants.len() ==> (#[trigger] variants[i]).fields is Named,
    ensures
        spec_derive(TypeDefV::Union { variants }, TagStrategyV::External) == Err::<
            SchemaV,
            DeriveErrorV,
        >(DeriveErrorV::MissingDiscriminator),
{
    assert forall|i: int| 0 <= i < variants.len() implies variant_kind(#[trigger] variants[i])
        == VariantKind::RecordLike by {}
    lemma_first_of_kind_none(variants, VariantKind::TupleLike);
    lemma_first_of_kind_none(variants, VariantKind::UnitLike);
}

/// A union with no variants is rejected with `EmptyUnion`, under any
/// strategy.
pub proof fn lemma_empty_union_rejected(strategy: TagStrategyV)
    ensures
        spec_derive(TypeDefV::Union { variants: Seq::empty() }, strategy) == Err::<
            SchemaV,
            DeriveErrorV,
        >(DeriveErrorV::Unsupported(UnsupportedShapeV::EmptyUnion)),
{
}

} // verus!
