use jtd_derive::error::{DeriveError, UnsupportedShape};
use jtd_derive::names::TypeIdent;
use jtd_derive::schema::Schema;
use jtd_derive::shape::{FieldsShape, TypeDef, VariantDef};

fn ident(short: &str, module: &str) -> TypeIdent {
    TypeIdent {
        short: short.to_string(),
        module: module.to_string(),
        type_args: vec![],
        const_args: vec![],
    }
}

fn number() -> Schema {
    Schema::Type { name: "float64".to_string() }
}

fn string_schema() -> Schema {
    Schema::Type { name: "string".to_string() }
}

fn named(name: &str, fields: Vec<(&str, Schema)>) -> VariantDef {
    VariantDef {
        name: name.to_string(),
        fields: FieldsShape::Named(
            fields.into_iter().map(|(n, s)| (n.to_string(), s)).collect(),
        ),
    }
}

fn unit(name: &str) -> VariantDef {
    VariantDef { name: name.to_string(), fields: FieldsShape::Unit }
}

#[test]
fn record_with_named_fields_gives_properties() {
    let def = TypeDef::Record {
        fields: FieldsShape::Named(vec![
            ("x".to_string(), number()),
            ("y".to_string(), string_schema()),
        ]),
    };
    let d = jtd_derive::derive::derive(&ident("Point", "app::geo"), None, def).unwrap();
    assert_eq!(
        d.schema,
        Schema::Properties {
            required: vec![
                ("x".to_string(), number()),
                ("y".to_string(), string_schema()),
            ],
            optional: vec![],
            additional_properties: true,
        }
    );
}

#[test]
fn newtype_wrapper_is_transparent() {
    let def = TypeDef::Record { fields: FieldsShape::Unnamed(vec![number()]) };
    let d = jtd_derive::derive::derive(&ident("Meters", "app::geo"), None, def).unwrap();
    assert_eq!(d.schema, number());
}

#[test]
fn newtype_wrapper_of_derived_schema_is_transparent() {
    // Deriving the inner record first and wrapping its schema gives the
    // wrapper the identical schema: derive(Wrapper(T)) == derive(T).
    let inner_def = TypeDef::Record {
        fields: FieldsShape::Named(vec![("x".to_string(), number())]),
    };
    let inner = jtd_derive::derive::derive(&ident("Point", "app::geo"), None, inner_def).unwrap();
    let wrapper_def = TypeDef::Record {
        fields: FieldsShape::Unnamed(vec![Schema::Properties {
            required: vec![("x".to_string(), number())],
            optional: vec![],
            additional_properties: true,
        }]),
    };
    let wrapper = jtd_derive::derive::derive(&ident("Wrapper", "app::geo"), None, wrapper_def).unwrap();
    assert_eq!(wrapper.schema, inner.schema);
}

#[test]
fn unit_union_external_gives_enum() {
    let def = TypeDef::Union { variants: vec![unit("Red"), unit("Green"), unit("Blue")] };
    let d = jtd_derive::derive::derive(&ident("Color", "app"), None, def).unwrap();
    assert_eq!(
        d.schema,
        Schema::Enum {
            values: vec!["Red".to_string(), "Green".to_string(), "Blue".to_string()],
        }
    );
}

#[test]
fn unit_union_internal_nests_enum_under_tag() {
    let def = TypeDef::Union { variants: vec![unit("Red"), unit("Green")] };
    let d = jtd_derive::derive::derive(&ident("Color", "app"), Some("kind".to_string()), def).unwrap();
    assert_eq!(
        d.schema,
        Schema::Properties {
            required: vec![(
                "kind".to_string(),
                Schema::Enum { values: vec!["Red".to_string(), "Green".to_string()] },
            )],
            optional: vec![],
            additional_properties: true,
        }
    );
}

#[test]
fn struct_union_internal_gives_discriminator() {
    // The `Shape` example: Circle{radius} | Square{side}, tagged by "kind".
    let def = TypeDef::Union {
        variants: vec![
            named("Circle", vec![("radius", number())]),
            named("Square", vec![("side", number())]),
        ],
    };
    let d = jtd_derive::derive::derive(&ident("Shape", "app::geo"), Some("kind".to_string()), def).unwrap();
    assert_eq!(
        d.schema,
        Schema::Discriminator {
            tag: "kind".to_string(),
            mapping: vec![
                (
                    "Circle".to_string(),
                    Schema::Properties {
                        required: vec![("radius".to_string(), number())],
                        optional: vec![],
                        additional_properties: true,
                    },
                ),
                (
                    "Square".to_string(),
                    Schema::Properties {
                        required: vec![("side".to_string(), number())],
                        optional: vec![],
                        additional_properties: true,
                    },
                ),
            ],
        }
    );
}

#[test]
fn deriving_twice_gives_identical_schemas() {
    let def = || TypeDef::Union {
        variants: vec![
            named("Circle", vec![("radius", number())]),
            named("Square", vec![("side", number())]),
        ],
    };
    let first = jtd_derive::derive::derive(&ident("Shape", "app"), Some("kind".to_string()), def()).unwrap();
    let second = jtd_derive::derive::derive(&ident("Shape", "app"), Some("kind".to_string()), def()).unwrap();
    assert_eq!(first.schema, second.schema);
    assert_eq!(first.names, second.names);
}

#[test]
fn derivation_names_and_referenceable() {
    let def = TypeDef::Record { fields: FieldsShape::Named(vec![("x".to_string(), number())]) };
    let d = jtd_derive::derive::derive(&ident("Point", "app::geo"), None, def).unwrap();
    assert!(d.referenceable);
    assert_eq!(d.names.short, "Point");
    assert_eq!(d.names.long, "app::geo::Point");
    assert!(d.names.type_params.is_empty());
    assert!(d.names.const_params.is_empty());
}

#[test]
fn mixed_variants_cites_first_of_each_kind() {
    let def = TypeDef::Union {
        variants: vec![unit("A"), named("B", vec![("x", number())]), unit("C")],
    };
    let err = jtd_derive::derive::derive(&ident("Mixed", "app"), None, def).unwrap_err();
    assert_eq!(
        err,
        DeriveError::Unsupported(UnsupportedShape::MixedVariants {
            unit_variant: "A".to_string(),
            struct_variant: "B".to_string(),
        })
    );
}

#[test]
fn mixed_variants_cites_first_of_each_kind_reversed() {
    let def = TypeDef::Union {
        variants: vec![named("B", vec![("x", number())]), unit("A")],
    };
    let err = jtd_derive::derive::derive(&ident("Mixed", "app"), Some("kind".to_string()), def).unwrap_err();
    assert_eq!(
        err,
        DeriveError::Unsupported(UnsupportedShape::MixedVariants {
            unit_variant: "A".to_string(),
            struct_variant: "B".to_string(),
        })
    );
}

#[test]
fn two_unnamed_fields_rejected() {
    let def = TypeDef::Record { fields: FieldsShape::Unnamed(vec![number(), number()]) };
    let err = jtd_derive::derive::derive(&ident("Pair", "app"), None, def).unwrap_err();
    assert_eq!(err, DeriveError::Unsupported(UnsupportedShape::MultiFieldTuple));
}

#[test]
fn struct_union_without_tag_rejected() {
    let def = TypeDef::Union {
        variants: vec![named("Circle", vec![("radius", number())])],
    };
    let err = jtd_derive::derive::derive(&ident("Shape", "app"), None, def).unwrap_err();
    assert_eq!(err, DeriveError::MissingDiscriminator);
}

#[test]
fn tuple_variant_rejected() {
    let def = TypeDef::Union {
        variants: vec![unit("A"), VariantDef {
            name: "B".to_string(),
            fields: FieldsShape::Unnamed(vec![number()]),
        }],
    };
    let err = jtd_derive::derive::derive(&ident("WithTuple", "app"), None, def).unwrap_err();
    assert_eq!(
        err,
        DeriveError::Unsupported(UnsupportedShape::TupleVariant { variant: "B".to_string() })
    );
}

#[test]
fn tuple_variant_rejected_even_in_a_mix() {
    // A tuple variant is never supported, whatever the other variants are.
    let def = TypeDef::Union {
        variants: vec![named("A", vec![("x", number())]), unit("B"), VariantDef {
            name: "C".to_string(),
            fields: FieldsShape::Unnamed(vec![number(), number()]),
        }],
    };
    let err = jtd_derive::derive::derive(&ident("WithTuple", "app"), None, def).unwrap_err();
    assert_eq!(
        err,
        DeriveError::Unsupported(UnsupportedShape::TupleVariant { variant: "C".to_string() })
    );
}

#[test]
fn empty_union_rejected() {
    let def = TypeDef::Union { variants: vec![] };
    let err = jtd_derive::derive::derive(&ident("Never", "app"), None, def).unwrap_err();
    assert_eq!(err, DeriveError::Unsupported(UnsupportedShape::EmptyUnion));
}

#[test]
fn empty_named_record_rejected() {
    let def = TypeDef::Record { fields: FieldsShape::Named(vec![]) };
    let err = jtd_derive::derive::derive(&ident("Empty", "app"), None, def).unwrap_err();
    assert_eq!(err, DeriveError::Unsupported(UnsupportedShape::EmptyNamedRecord));
}

#[test]
fn unit_record_rejected() {
    let def = TypeDef::Record { fields: FieldsShape::Unit };
    let err = jtd_derive::derive::derive(&ident("Unit", "app"), None, def).unwrap_err();
    assert_eq!(err, DeriveError::Unsupported(UnsupportedShape::UnitRecord));
}
