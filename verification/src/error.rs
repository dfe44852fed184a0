//! The diagnostics with which derivation rejects a type.

use vstd::prelude::*;

verus! {

/// A structural shape that derivation does not support, regardless of
/// configuration.
#[derive(Debug, PartialEq, Eq)]
pub enum UnsupportedShape {
    /// A record declared with named fields but holding none.
    EmptyNamedRecord,
    /// A record with no fields at all.
    UnitRecord,
    /// A record with unnamed fields, but not exactly one of them.
    MultiFieldTuple,
    /// A union variant carrying positional (unnamed) data; `variant` is the
    /// first such variant.
    TupleVariant { variant: String },
    /// A union mixing unit-like and record-like variants; the cited variants
    /// are the first seen of each kind.
    MixedVariants { unit_variant: String, struct_variant: String },
    /// A union with no variants.
    EmptyUnion,
}

/// Why deriving a schema for one type failed. Each failure is fatal to that
/// type's derivation only.
#[derive(Debug, PartialEq, Eq)]
pub enum DeriveError {
    /// The shape itself is unsupported.
    Unsupported(UnsupportedShape),
    /// A union with record-like variants was derived without an internal
    /// tag: its encoding could not signal which variant's fields apply.
    MissingDiscriminator,
    /// The tagging configuration was malformed. The front-end that parses
    /// configuration reports this; derivation itself takes the configuration
    /// as already parsed and never produces it.
    ConfigError,
}

/// The mathematical value of an [`UnsupportedShape`].
pub enum UnsupportedShapeV {
    EmptyNamedRecord,
    UnitRecord,
    MultiFieldTuple,
    TupleVariant { variant: Seq<char> },
    MixedVariants { unit_variant: Seq<char>, struct_variant: Seq<char> },
    EmptyUnion,
}

/// The mathematical value of a [`DeriveError`].
pub enum DeriveErrorV {
    Unsupported(UnsupportedShapeV),
    MissingDiscriminator,
    ConfigError,
}

impl View for UnsupportedShape {
    type V = UnsupportedShapeV;

    open spec fn view(&self) -> UnsupportedShapeV {
        match *self {
            UnsupportedShape::EmptyNamedRecord => UnsupportedShapeV::EmptyNamedRecord,
            UnsupportedShape::UnitRecord => UnsupportedShapeV::UnitRecord,
            UnsupportedShape::MultiFieldTuple => UnsupportedShapeV::MultiFieldTuple,
            UnsupportedShape::TupleVariant { variant } => UnsupportedShapeV::TupleVariant {
                variant: variant@,
            },
            UnsupportedShape::MixedVariants { unit_variant, struct_variant } => UnsupportedShapeV::MixedVariants {
                unit_variant: unit_variant@,
                struct_variant: struct_variant@,
            },
            UnsupportedShape::EmptyUnion => UnsupportedShapeV::EmptyUnion,
        }
    }
}

impl View for DeriveError {
    type V = DeriveErrorV;

    open spec fn view(&self) -> DeriveErrorV {
        match *self {
            DeriveError::Unsupported(shape) => DeriveErrorV::Unsupported(shape@),
            DeriveError::MissingDiscriminator => DeriveErrorV::MissingDiscriminator,
            DeriveError::ConfigError => DeriveErrorV::ConfigError,
        }
    }
}

} // verus!
