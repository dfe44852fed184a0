//! The derivation pipeline for one type.

use vstd::prelude::*;

use crate::error::{DeriveError, DeriveErrorV};
use crate::names::{resolve_names, spec_names, Names, TypeIdent};
use crate::schema::{schema_view, Schema, SchemaV};
use crate::shape::TypeDef;
use crate::strategy::{resolve_strategy, spec_resolve_strategy, TagStrategy};
use crate::synth::{gen_enum_schema, gen_struct_schema, spec_derive};

verus! {

/// The outcome of deriving one type: its schema, the identity under which a
/// registry may register it, and whether the type is eligible for reference
/// substitution at all.
#[derive(Debug, PartialEq, Eq)]
pub struct Derivation {
    pub schema: Schema,
    pub names: Names,
    pub referenceable: bool,
}

/// Derives the JSON Typedef schema for one type.
///
/// `ident` is the type's declaration name with its generic arguments,
/// `config` its tagging configuration as the front-end parsed it, and `def`
/// its layout, every member type already resolved to a sub-schema by the
/// caller's registry. The derivation is a pure function of these inputs:
/// repeating it for the same type in one session yields the same schema.
/// Every derived type is referenceable.
pub fn derive(ident: &TypeIdent, config: Option<String>, def: TypeDef) -> (result: Result<
    Derivation,
    DeriveError,
>)
    ensures
        match result {
            Ok(d) => spec_derive(def@, spec_resolve_strategy(config)) == Ok::<
                SchemaV,
                DeriveErrorV,
            >(schema_view(d.schema)) && d.names@ == spec_names(ident@) && d.referenceable,
            Err(e) => spec_derive(def@, spec_resolve_strategy(config)) == Err::<
                SchemaV,
                DeriveErrorV,
            >(e@),
        },
{
    let strategy: TagStrategy = resolve_strategy(config);
    let schema = match def {
        TypeDef::Record { fields } => gen_struct_schema(fields),
        TypeDef::Union { variants } => gen_enum_schema(variants, &strategy),
    };
    match schema {
        Ok(schema) => Ok(
            Derivation { schema, names: resolve_names(ident), referenceable: true },
        ),
        Err(e) => Err(e),
    }
}

} // verus!
