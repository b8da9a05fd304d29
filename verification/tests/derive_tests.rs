//! Whole derivations: product and sum declarations in, constructors or a
//! single anchored diagnostic out.

use new_core::derive::{derive_constructors, derive_for_enum, derive_for_struct};
use new_core::emit::ConstructTarget;
use new_core::errors::{ConfigError, DeriveError};
use new_core::main_options::Visibility;
use new_core::model::{
    DataDecl, FieldDecl, FieldList, ListKind, Marker, MarkerBlock, MarkerValue, PathSegment,
    FieldType, TypeKind, VariantDecl,
};
use new_core::plan::{ParamType, Shape, ValueExpr};

fn dv_ty(name: &str) -> FieldType {
    FieldType {
        kind: TypeKind::Path(vec![PathSegment { name: name.to_string(), args: None }]),
        text: name.to_string(),
    }
}

fn dv_marker(key: &str, value: MarkerValue) -> Marker {
    Marker { key: key.to_string(), value }
}

fn dv_block(markers: Vec<Marker>) -> Vec<MarkerBlock> {
    vec![MarkerBlock { markers }]
}

fn dv_named_field(name: &str, ty: &str) -> FieldDecl {
    FieldDecl { name: Some(name.to_string()), ty: dv_ty(ty), blocks: vec![] }
}

#[test]
fn a_plain_struct_gets_one_constructor_named_new() {
    let fields = FieldList {
        kind: ListKind::Named,
        fields: vec![dv_named_field("x", "u32"), dv_named_field("y", "u32")],
    };
    let g = derive_for_struct(&vec![], &fields).unwrap();
    assert_eq!(g.constructors.len(), 1);
    let c = &g.constructors[0];
    assert_eq!(c.name, "new");
    assert_eq!(c.visibility, Visibility::Private);
    assert!(!c.constant);
    assert_eq!(c.target, ConstructTarget::Plain);
    assert_eq!(c.plan.shape, Shape::Named);
    assert_eq!(c.plan.parameters.len(), 2);
}

#[test]
fn struct_rename_names_the_constructor() {
    let blocks = dv_block(vec![dv_marker(
        "rename",
        MarkerValue::EqStr("create".to_string()),
    )]);
    let fields = FieldList { kind: ListKind::Named, fields: vec![dv_named_field("x", "u32")] };
    let g = derive_for_struct(&blocks, &fields).unwrap();
    assert_eq!(g.constructors[0].name, "create");
}

#[test]
fn a_unit_struct_gets_a_no_parameter_constructor() {
    let fields = FieldList { kind: ListKind::Unit, fields: vec![] };
    let g = derive_for_struct(&vec![], &fields).unwrap();
    let c = &g.constructors[0];
    assert_eq!(c.plan.shape, Shape::NoFields);
    assert!(c.plan.parameters.is_empty());
    assert!(c.plan.values.is_empty());
}

#[test]
fn enum_variants_get_one_constructor_each() {
    let variants = vec![
        VariantDecl {
            name: "I".to_string(),
            fields: FieldList { kind: ListKind::Unit, fields: vec![] },
        },
        VariantDecl {
            name: "J".to_string(),
            fields: FieldList {
                kind: ListKind::Named,
                fields: vec![dv_named_field("x", "u32")],
            },
        },
    ];
    let g = derive_for_enum(&vec![], &variants).unwrap();
    assert_eq!(g.constructors.len(), 2);

    let i = &g.constructors[0];
    assert_eq!(i.name, "new_i");
    assert_eq!(i.target, ConstructTarget::Variant("I".to_string()));
    assert_eq!(i.plan.shape, Shape::NoFields);
    assert!(i.plan.parameters.is_empty());

    let j = &g.constructors[1];
    assert_eq!(j.name, "new_j");
    assert_eq!(j.target, ConstructTarget::Variant("J".to_string()));
    assert_eq!(j.plan.parameters.len(), 1);
    assert_eq!(j.plan.parameters[0].name, Some("x".to_string()));
    assert_eq!(j.plan.parameters[0].ty, ParamType::Exact("u32".to_string()));
    assert_eq!(j.plan.values[0].value, ValueExpr::Forward);
}

#[test]
fn variant_names_are_case_converted() {
    let variants = vec![VariantDecl {
        name: "ReadyToGo".to_string(),
        fields: FieldList { kind: ListKind::Unit, fields: vec![] },
    }];
    let g = derive_for_enum(&vec![], &variants).unwrap();
    assert_eq!(g.constructors[0].name, "new_ready_to_go");
}

#[test]
fn no_prefix_drops_the_prefix_from_variant_constructors() {
    let blocks = dv_block(vec![dv_marker("no_prefix", MarkerValue::Bare)]);
    let variants = vec![VariantDecl {
        name: "ReadyToGo".to_string(),
        fields: FieldList { kind: ListKind::Unit, fields: vec![] },
    }];
    let g = derive_for_enum(&blocks, &variants).unwrap();
    assert_eq!(g.constructors[0].name, "ready_to_go");
}

#[test]
fn a_rename_prefixes_every_variant_constructor() {
    let blocks = dv_block(vec![dv_marker(
        "rename",
        MarkerValue::EqStr("make".to_string()),
    )]);
    let variants = vec![
        VariantDecl {
            name: "Hot".to_string(),
            fields: FieldList { kind: ListKind::Unit, fields: vec![] },
        },
        VariantDecl {
            name: "Cold".to_string(),
            fields: FieldList { kind: ListKind::Unit, fields: vec![] },
        },
    ];
    let g = derive_for_enum(&blocks, &variants).unwrap();
    assert_eq!(g.constructors[0].name, "make_hot");
    assert_eq!(g.constructors[1].name, "make_cold");
}

#[test]
fn an_enum_with_zero_variants_yields_an_empty_unit() {
    let g = derive_for_enum(&vec![], &vec![]).unwrap();
    assert!(g.constructors.is_empty());
}

#[test]
fn type_level_options_are_shared_by_all_variants() {
    let blocks = dv_block(vec![dv_marker("pub", MarkerValue::Bare), dv_marker("const", MarkerValue::Bare)]);
    let variants = vec![
        VariantDecl {
            name: "A".to_string(),
            fields: FieldList { kind: ListKind::Unit, fields: vec![] },
        },
        VariantDecl {
            name: "B".to_string(),
            fields: FieldList { kind: ListKind::Unit, fields: vec![] },
        },
    ];
    let g = derive_for_enum(&blocks, &variants).unwrap();
    for c in &g.constructors {
        assert_eq!(c.visibility, Visibility::Public);
        assert!(c.constant);
    }
}

#[test]
fn a_field_error_is_anchored_to_variant_and_field() {
    let bad_field = FieldDecl {
        name: Some("x".to_string()),
        ty: dv_ty("u32"),
        blocks: dv_block(vec![
            dv_marker("optional", MarkerValue::Bare),
            dv_marker("into", MarkerValue::Bare),
        ]),
    };
    let variants = vec![
        VariantDecl {
            name: "Ok0".to_string(),
            fields: FieldList { kind: ListKind::Unit, fields: vec![] },
        },
        VariantDecl {
            name: "Bad".to_string(),
            fields: FieldList {
                kind: ListKind::Named,
                fields: vec![dv_named_field("w", "u8"), bad_field],
            },
        },
    ];
    let r = derive_for_enum(&vec![], &variants);
    assert_eq!(
        r,
        Err(DeriveError {
            variant: Some(1),
            field: Some(1),
            error: ConfigError::OptionalWithConvert,
        })
    );
}

#[test]
fn a_struct_field_error_is_anchored_to_the_field() {
    let bad_field = FieldDecl {
        name: Some("x".to_string()),
        ty: dv_ty("String"),
        blocks: dv_block(vec![
            dv_marker("default", MarkerValue::Bare),
            dv_marker("into", MarkerValue::Bare),
        ]),
    };
    let fields = FieldList {
        kind: ListKind::Named,
        fields: vec![dv_named_field("a", "u8"), dv_named_field("b", "u8"), bad_field],
    };
    let r = derive_for_struct(&vec![], &fields);
    assert_eq!(
        r,
        Err(DeriveError {
            variant: None,
            field: Some(2),
            error: ConfigError::DefaultWithConvert,
        })
    );
}

#[test]
fn constant_safety_rejections_reach_the_derivation() {
    let blocks = dv_block(vec![dv_marker("const", MarkerValue::Bare)]);
    let field = FieldDecl {
        name: Some("s".to_string()),
        ty: dv_ty("String"),
        blocks: dv_block(vec![dv_marker("into", MarkerValue::Bare)]),
    };
    let fields = FieldList { kind: ListKind::Named, fields: vec![field] };
    let r = derive_for_struct(&blocks, &fields);
    assert_eq!(
        r,
        Err(DeriveError {
            variant: None,
            field: Some(0),
            error: ConfigError::ConstantConvert,
        })
    );
}

#[test]
fn an_unsupported_declaration_kind_is_a_structural_error() {
    let r = derive_constructors(&vec![], &DataDecl::Other);
    assert_eq!(
        r,
        Err(DeriveError { variant: None, field: None, error: ConfigError::UnsupportedDecl })
    );
}

#[test]
fn the_dispatcher_reaches_both_kinds() {
    let fields = FieldList { kind: ListKind::Unit, fields: vec![] };
    let g = derive_constructors(&vec![], &DataDecl::Product(fields)).unwrap();
    assert_eq!(g.constructors.len(), 1);
    assert_eq!(g.constructors[0].target, ConstructTarget::Plain);

    let g = derive_constructors(&vec![], &DataDecl::Sum(vec![])).unwrap();
    assert!(g.constructors.is_empty());
}

#[test]
fn a_type_level_error_stops_the_whole_derivation() {
    let blocks = dv_block(vec![dv_marker("no_prefix", MarkerValue::Bare)]);
    let fields = FieldList { kind: ListKind::Named, fields: vec![dv_named_field("x", "u32")] };
    let r = derive_for_struct(&blocks, &fields);
    assert_eq!(
        r,
        Err(DeriveError { variant: None, field: None, error: ConfigError::NoPrefixOnProduct })
    );
}

#[test]
fn deriving_twice_gives_identical_output() {
    let blocks = dv_block(vec![dv_marker("rename", MarkerValue::EqStr("mk".to_string()))]);
    let data = DataDecl::Sum(vec![
        VariantDecl {
            name: "FirstOne".to_string(),
            fields: FieldList { kind: ListKind::Unit, fields: vec![] },
        },
        VariantDecl {
            name: "Second".to_string(),
            fields: FieldList {
                kind: ListKind::Unnamed,
                fields: vec![FieldDecl { name: None, ty: dv_ty("u64"), blocks: vec![] }],
            },
        },
    ]);
    let a = derive_constructors(&blocks, &data);
    let b = derive_constructors(&blocks, &data);
    assert_eq!(a, b);
}
