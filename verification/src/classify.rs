//! Classification of a union's variants into the supported kinds.

use vstd::prelude::*;

use crate::error::{DeriveError, DeriveErrorV, UnsupportedShape, UnsupportedShapeV};
use crate::shape::{lemma_variants_view, variants_view, FieldsShape, FieldsShapeV, VariantDef, VariantV};

verus! {

/// Which schema construct a union's variants call for.
#[derive(Debug, PartialEq, Eq, Structural)]
pub enum EnumKind {
    /// Every variant is unit-like.
    UnitVariants,
    /// Every variant is record-like.
    StructVariants,
}

/// The shape kind of one variant.
#[derive(Debug, PartialEq, Eq, Structural)]
pub enum VariantKind {
    /// Carries named fields.
    RecordLike,
    /// Carries no data.
    UnitLike,
    /// Carries positional data; never supported.
    TupleLike,
}

pub open spec fn variant_kind(variant: VariantV) -> VariantKind {
    match variant.fields {
        FieldsShapeV::Named(_) => VariantKind::RecordLike,
        FieldsShapeV::Unnamed(_) => VariantKind::TupleLike,
        FieldsShapeV::Unit => VariantKind::UnitLike,
    }
}

/// The index of the first variant of kind `kind`, or `-1` if there is none.
pub open spec fn first_of_kind(variants: Seq<VariantV>, kind: VariantKind) -> int
    decreases variants.len(),
{
    if variants.len() == 0 {
        -1
    } else if variant_kind(variants[0]) == kind {
        0
    } else {
        let rest = first_of_kind(variants.drop_first(), kind);
        if rest < 0 {
            -1
        } else {
            rest + 1
        }
    }
}

pub open spec fn has_kind(variants: Seq<VariantV>, kind: VariantKind) -> bool {
    first_of_kind(variants, kind) >= 0
}

/// Classification of a union's variants.
///
/// A variant with positional data fails with `TupleVariant`, citing the
/// first such variant, whatever the other variants are. An empty union
/// fails with `EmptyUnion`. A mix of unit-like and record-like variants
/// fails with `MixedVariants`, citing the first seen of each kind. The
/// result depends only on the variants' shapes.
pub open spec fn spec_enum_kind(variants: Seq<VariantV>) -> Result<EnumKind, DeriveErrorV> {
    if has_kind(variants, VariantKind::TupleLike) {
        Err(
            DeriveErrorV::Unsupported(
                UnsupportedShapeV::TupleVariant {
                    variant: variants[first_of_kind(variants, VariantKind::TupleLike)].name,
                },
            ),
        )
    } else if variants.len() == 0 {
        Err(DeriveErrorV::Unsupported(UnsupportedShapeV::EmptyUnion))
    } else if has_kind(variants, VariantKind::UnitLike) && has_kind(
        variants,
        VariantKind::RecordLike,
    ) {
        Err(
            DeriveErrorV::Unsupported(
                UnsupportedShapeV::MixedVariants {
                    unit_variant: variants[first_of_kind(variants, VariantKind::UnitLike)].name,
                    struct_variant: variants[first_of_kind(
                        variants,
                        VariantKind::RecordLike,
                    )].name,
                },
            ),
        )
    } else if has_kind(variants, VariantKind::RecordLike) {
        Ok(EnumKind::StructVariants)
    } else {
        Ok(EnumKind::UnitVariants)
    }
}

pub proof fn lemma_first_of_kind_is(variants: Seq<VariantV>, kind: VariantKind, u: int)
    requires
        0 <= u < variants.len(),
        variant_kind(variants[u]) == kind,
        forall|j: int| 0 <= j < u ==> variant_kind(#[trigger] variants[j]) != kind,
    ensures
        first_of_kind(variants, kind) == u,
    decreases variants.len(),
{
    if u > 0 {
        assert forall|j: int| 0 <= j < u - 1 implies variant_kind(
            #[trigger] variants.drop_first()[j],
        ) != kind by {
            assert(variants.drop_first()[j] == variants[j + 1]);
        }
        assert(variants.drop_first()[u - 1] == variants[u]);
        lemma_first_of_kind_is(variants.drop_first(), kind, u - 1);
    }
}

pub proof fn lemma_first_of_kind_none(variants: Seq<VariantV>, kind: VariantKind)
    requires
        forall|j: int| 0 <= j < variants.len() ==> variant_kind(#[trigger] variants[j]) != kind,
    ensures
        first_of_kind(variants, kind) == -1,
    decreases variants.len(),
{
    if variants.len() > 0 {
        assert forall|j: int| 0 <= j < variants.len() - 1 implies variant_kind(
            #[trigger] variants.drop_first()[j],
        ) != kind by {
            assert(variants.drop_first()[j] == variants[j + 1]);
        }
        lemma_first_of_kind_none(variants.drop_first(), kind);
    }
}

pub proof fn lemma_no_kind(variants: Seq<VariantV>, kind: VariantKind)
    requires
        !has_kind(variants, kind),
    ensures
        forall|j: int| 0 <= j < variants.len() ==> variant_kind(#[trigger] variants[j]) != kind,
    decreases variants.len(),
{
    if variants.len() > 0 {
        lemma_no_kind(variants.drop_first(), kind);
        assert forall|j: int| 0 <= j < variants.len() implies variant_kind(
            #[trigger] variants[j],
        ) != kind by {
            if j > 0 {
                assert(variants.drop_first()[j - 1] == variants[j]);
            }
        }
    }
}

pub proof fn lemma_first_of_kind_same_kinds(a: Seq<VariantV>, b: Seq<VariantV>, kind: VariantKind)
    requires
        a.len() == b.len(),
        forall|i: int| 0 <= i < a.len() ==> variant_kind(#[trigger] a[i]) == variant_kind(b[i]),
    ensures
        first_of_kind(a, kind) == first_of_kind(b, kind),
    decreases a.len(),
{
    if a.len() > 0 {
        assert forall|i: int| 0 <= i < a.len() - 1 implies variant_kind(
            #[trigger] a.drop_first()[i],
        ) == variant_kind(b.drop_first()[i]) by {
            assert(a.drop_first()[i] == a[i + 1]);
            assert(b.drop_first()[i] == b[i + 1]);
        }
        lemma_first_of_kind_same_kinds(a.drop_first(), b.drop_first(), kind);
    }
}

pub proof fn lemma_first_of_kind_props(variants: Seq<VariantV>, kind: VariantKind)
    requires
        has_kind(variants, kind),
    ensures
        ({
            let f = first_of_kind(variants, kind);
            &&& 0 <= f < variants.len()
            &&& variant_kind(variants[f]) == kind
            &&& forall|j: int| 0 <= j < f ==> variant_kind(#[trigger] variants[j]) != kind
        }),
    decreases variants.len(),
{
    if variants.len() > 0 && variant_kind(variants[0]) != kind {
        lemma_first_of_kind_props(variants.drop_first(), kind);
        let f = first_of_kind(variants, kind);
        assert(variants.drop_first()[f - 1] == variants[f]);
        assert forall|j: int| 0 <= j < f implies variant_kind(#[trigger] variants[j]) != kind by {
            if j > 0 {
                assert(variants.drop_first()[j - 1] == variants[j]);
            }
        }
    }
}

/// A union classified as having struct variants has only record-like
/// variants.
pub proof fn lemma_struct_variants_all_record(variants: Seq<VariantV>)
    requires
        spec_enum_kind(variants) == Ok::<EnumKind, DeriveErrorV>(EnumKind::StructVariants),
    ensures
        forall|j: int| 0 <= j < variants.len() ==> variant_kind(#[trigger] variants[j])
            == VariantKind::RecordLike,
{
    lemma_no_kind(variants, VariantKind::TupleLike);
    lemma_no_kind(variants, VariantKind::UnitLike);
}

/// Scans a union's variants once and determines which construct applies.
pub fn enum_kind(variants: &Vec<VariantDef>) -> (result: Result<EnumKind, DeriveError>)
    ensures
        match result {
            Ok(kind) => spec_enum_kind(variants_view(variants@)) == Ok::<
                EnumKind,
                DeriveErrorV,
            >(kind),
            Err(e) => spec_enum_kind(variants_view(variants@)) == Err::<
                EnumKind,
                DeriveErrorV,
            >(e@),
        },
{
    let ghost vs = variants_view(variants@);
    let mut first_unit: Option<usize> = None;
    let mut first_record: Option<usize> = None;
    let mut i: usize = 0;
    while i < variants.len()
        invariant
            vs == variants_view(variants@),
            i <= variants.len(),
            forall|j: int| 0 <= j < i ==> variant_kind(#[trigger] vs[j]) != VariantKind::TupleLike,
            match first_unit {
                Option::None => forall|j: int|
                    0 <= j < i ==> variant_kind(#[trigger] vs[j]) != VariantKind::UnitLike,
                Option::Some(u) => u < i && variant_kind(vs[u as int]) == VariantKind::UnitLike
                    && forall|j: int|
                    0 <= j < u ==> variant_kind(#[trigger] vs[j]) != VariantKind::UnitLike,
            },
            match first_record {
                Option::None => forall|j: int|
                    0 <= j < i ==> variant_kind(#[trigger] vs[j]) != VariantKind::RecordLike,
                Option::Some(u) => u < i && variant_kind(vs[u as int]) == VariantKind::RecordLike
                    && forall|j: int|
                    0 <= j < u ==> variant_kind(#[trigger] vs[j]) != VariantKind::RecordLike,
            },
        decreases variants.len() - i,
    {
        proof {
            lemma_variants_view(variants@);
        }
        match &variants[i].fields {
            FieldsShape::Named(_) => {
                if first_record.is_none() {
                    first_record = Some(i);
                }
            },
            FieldsShape::Unit => {
                if first_unit.is_none() {
                    first_unit = Some(i);
                }
            },
            FieldsShape::Unnamed(_) => {
                proof {
                    lemma_first_of_kind_is(vs, VariantKind::TupleLike, i as int);
                }
                return Err(
                    DeriveError::Unsupported(
                        UnsupportedShape::TupleVariant { variant: variants[i].name.clone() },
                    ),
                );
            },
        }
        i += 1;
    }
    proof {
        lemma_variants_view(variants@);
        lemma_first_of_kind_none(vs, VariantKind::TupleLike);
    }
    if variants.len() == 0 {
        return Err(DeriveError::Unsupported(UnsupportedShape::EmptyUnion));
    }
    match (first_record, first_unit) {
        (Some(r), Some(u)) => {
            proof {
                lemma_first_of_kind_is(vs, VariantKind::UnitLike, u as int);
                lemma_first_of_kind_is(vs, VariantKind::RecordLike, r as int);
            }
            Err(
                DeriveError::Unsupported(
                    UnsupportedShape::MixedVariants {
                        unit_variant: variants[u].name.clone(),
                        struct_variant: variants[r].name.clone(),
                    },
                ),
            )
        },
        (Some(r), None) => {
            proof {
                lemma_first_of_kind_is(vs, VariantKind::RecordLike, r as int);
                lemma_first_of_kind_none(vs, VariantKind::UnitLike);
            }
            Ok(EnumKind::StructVariants)
        },
        (None, Some(u)) => {
            proof {
                lemma_first_of_kind_is(vs, VariantKind::UnitLike, u as int);
                lemma_first_of_kind_none(vs, VariantKind::RecordLike);
            }
            Ok(EnumKind::UnitVariants)
        },
        (None, None) => {
            proof {
                assert(variant_kind(vs[0]) != VariantKind::TupleLike);
                assert(variant_kind(vs[0]) != VariantKind::UnitLike);
                assert(variant_kind(vs[0]) != VariantKind::RecordLike);
                assert(false);
            }
            vstd::pervasive::unreached()
        },
    }
}

} // verus!
