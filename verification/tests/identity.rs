use jtd_derive::classify::{enum_kind, EnumKind};
use jtd_derive::names::{resolve_names, same_identity, Names, TypeIdent};
use jtd_derive::schema::Schema;
use jtd_derive::shape::{FieldsShape, VariantDef};
use jtd_derive::strategy::{resolve_strategy, TagStrategy};
use jtd_derive::synth::gen_named_fields;

fn plain(short: &str, module: &str) -> TypeIdent {
    TypeIdent {
        short: short.to_string(),
        module: module.to_string(),
        type_args: vec![],
        const_args: vec![],
    }
}

#[test]
fn resolve_names_qualifies_and_recurses() {
    let t = TypeIdent {
        short: "Pair".to_string(),
        module: "app::geo".to_string(),
        type_args: vec![plain("Circle", "app::geo"), plain("Square", "app::geo")],
        const_args: vec!["3".to_string()],
    };
    let names = resolve_names(&t);
    assert_eq!(names.short, "Pair");
    assert_eq!(names.long, "app::geo::Pair");
    assert_eq!(names.type_params.len(), 2);
    assert_eq!(names.type_params[0].short, "Circle");
    assert_eq!(names.type_params[0].long, "app::geo::Circle");
    assert_eq!(names.type_params[1].long, "app::geo::Square");
    assert_eq!(names.const_params, vec!["3".to_string()]);
}

#[test]
fn same_identity_matches_long_and_params() {
    let a = resolve_names(&TypeIdent {
        short: "Pair".to_string(),
        module: "app".to_string(),
        type_args: vec![plain("Circle", "app")],
        const_args: vec!["3".to_string()],
    });
    let b = resolve_names(&TypeIdent {
        short: "Pair".to_string(),
        module: "app".to_string(),
        type_args: vec![plain("Circle", "app")],
        const_args: vec!["3".to_string()],
    });
    assert!(same_identity(&a, &b));
}

#[test]
fn same_identity_ignores_short_name() {
    let mut a = resolve_names(&plain("Circle", "app"));
    let b = resolve_names(&plain("Circle", "app"));
    a.short = "Renamed".to_string();
    // The unqualified name plays no part in identity.
    assert!(same_identity(&a, &b));
}

#[test]
fn same_identity_distinguishes_const_params() {
    let a = resolve_names(&TypeIdent {
        short: "Grid".to_string(),
        module: "app".to_string(),
        type_args: vec![],
        const_args: vec!["3".to_string()],
    });
    let b = resolve_names(&TypeIdent {
        short: "Grid".to_string(),
        module: "app".to_string(),
        type_args: vec![],
        const_args: vec!["4".to_string()],
    });
    assert!(!same_identity(&a, &b));
}

#[test]
fn same_identity_distinguishes_type_params_recursively() {
    let a = resolve_names(&TypeIdent {
        short: "Pair".to_string(),
        module: "app".to_string(),
        type_args: vec![plain("Circle", "app")],
        const_args: vec![],
    });
    let b = resolve_names(&TypeIdent {
        short: "Pair".to_string(),
        module: "app".to_string(),
        type_args: vec![plain("Circle", "other")],
        const_args: vec![],
    });
    assert!(!same_identity(&a, &b));
}

#[test]
fn same_identity_distinguishes_module() {
    let a = resolve_names(&plain("Circle", "app"));
    let b = resolve_names(&plain("Circle", "app::geo"));
    assert!(!same_identity(&a, &b));
}

#[test]
fn identity_is_a_plain_value() {
    let names = Names {
        short: "Circle".to_string(),
        long: "app::Circle".to_string(),
        type_params: vec![],
        const_params: vec![],
    };
    assert!(same_identity(&names, &resolve_names(&plain("Circle", "app"))));
}

#[test]
fn resolve_strategy_defaults_to_external() {
    assert_eq!(resolve_strategy(None), TagStrategy::External);
}

#[test]
fn resolve_strategy_takes_configured_tag() {
    assert_eq!(
        resolve_strategy(Some("kind".to_string())),
        TagStrategy::Internal("kind".to_string())
    );
}

#[test]
fn enum_kind_classifies_unit_variants() {
    let variants = vec![
        VariantDef { name: "A".to_string(), fields: FieldsShape::Unit },
        VariantDef { name: "B".to_string(), fields: FieldsShape::Unit },
    ];
    assert_eq!(enum_kind(&variants).unwrap(), EnumKind::UnitVariants);
}

#[test]
fn enum_kind_classifies_struct_variants() {
    let variants = vec![VariantDef {
        name: "A".to_string(),
        fields: FieldsShape::Named(vec![(
            "x".to_string(),
            Schema::Type { name: "float64".to_string() },
        )]),
    }];
    assert_eq!(enum_kind(&variants).unwrap(), EnumKind::StructVariants);
}

#[test]
fn gen_named_fields_requires_every_field() {
    let schema = gen_named_fields(
        vec![("x".to_string(), Schema::Empty), ("y".to_string(), Schema::Empty)],
        true,
    );
    assert_eq!(
        schema,
        Schema::Properties {
            required: vec![
                ("x".to_string(), Schema::Empty),
                ("y".to_string(), Schema::Empty),
            ],
            optional: vec![],
            additional_properties: true,
        }
    );
}
