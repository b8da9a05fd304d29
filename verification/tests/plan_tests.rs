//! Plan construction: parameters and value expressions per field option,
//! shape mapping, and the constant-safety rejections.

use new_core::errors::{ConfigError, FieldError};
use new_core::field_options::{resolve_field_options, DefaultKind, FieldOptions};
use new_core::model::{
    ExprText, FieldDecl, FieldList, GenericArg, ListKind, Marker, MarkerBlock, MarkerValue,
    PathSegment, FieldType, TypeKind,
};
use new_core::plan::{build_plan, ParamType, Shape, ValueExpr};
use new_core::emit::resolve_optional;

fn pl_ty(name: &str) -> FieldType {
    FieldType {
        kind: TypeKind::Path(vec![PathSegment { name: name.to_string(), args: None }]),
        text: name.to_string(),
    }
}

fn pl_field(name: Option<&str>, ty: FieldType, blocks: Vec<MarkerBlock>) -> FieldDecl {
    FieldDecl { name: name.map(|n| n.to_string()), ty, blocks }
}

fn pl_marker(key: &str, value: MarkerValue) -> Marker {
    Marker { key: key.to_string(), value }
}

fn pl_block(markers: Vec<Marker>) -> Vec<MarkerBlock> {
    vec![MarkerBlock { markers }]
}

fn pl_resolve_all(fields: &FieldList) -> Vec<FieldOptions> {
    fields
        .fields
        .iter()
        .map(|f| resolve_field_options(&f.blocks, &f.ty).unwrap())
        .collect()
}

#[test]
fn plain_fields_become_one_parameter_each() {
    let fields = FieldList {
        kind: ListKind::Named,
        fields: vec![
            pl_field(Some("a"), pl_ty("u32"), vec![]),
            pl_field(Some("b"), pl_ty("String"), vec![]),
            pl_field(Some("c"), pl_ty("bool"), vec![]),
        ],
    };
    let opts = pl_resolve_all(&fields);
    let plan = build_plan(&fields, &opts, false).unwrap();
    assert_eq!(plan.shape, Shape::Named);
    assert_eq!(plan.parameters.len(), 3);
    assert_eq!(plan.values.len(), 3);
    for (i, name, ty) in [(0usize, "a", "u32"), (1, "b", "String"), (2, "c", "bool")] {
        assert_eq!(plan.parameters[i].index, i);
        assert_eq!(plan.parameters[i].name, Some(name.to_string()));
        assert_eq!(plan.parameters[i].ty, ParamType::Exact(ty.to_string()));
        assert_eq!(plan.values[i].index, i);
        assert_eq!(plan.values[i].name, Some(name.to_string()));
        assert_eq!(plan.values[i].value, ValueExpr::Forward);
    }
}

#[test]
fn positional_fields_have_no_parameter_names() {
    let fields = FieldList {
        kind: ListKind::Unnamed,
        fields: vec![
            pl_field(None, pl_ty("u8"), vec![]),
            pl_field(None, pl_ty("u16"), vec![]),
        ],
    };
    let opts = pl_resolve_all(&fields);
    let plan = build_plan(&fields, &opts, false).unwrap();
    assert_eq!(plan.shape, Shape::Positional);
    assert_eq!(plan.parameters.len(), 2);
    assert_eq!(plan.parameters[0].name, None);
    assert_eq!(plan.parameters[1].index, 1);
}

#[test]
fn a_unit_field_list_plans_no_parameters() {
    let fields = FieldList { kind: ListKind::Unit, fields: vec![] };
    let plan = build_plan(&fields, &vec![], false).unwrap();
    assert_eq!(plan.shape, Shape::NoFields);
    assert!(plan.parameters.is_empty());
    assert!(plan.values.is_empty());
}

#[test]
fn auto_default_fields_contribute_no_parameter() {
    let unit_ty = FieldType { kind: TypeKind::EmptyTuple, text: "()".to_string() };
    let phantom_ty = FieldType {
        kind: TypeKind::Path(vec![PathSegment {
            name: "PhantomData".to_string(),
            args: Some(vec![GenericArg::TypeArg("T".to_string())]),
        }]),
        text: "PhantomData<T>".to_string(),
    };
    let fields = FieldList {
        kind: ListKind::Named,
        fields: vec![
            pl_field(Some("u"), unit_ty, vec![]),
            pl_field(Some("p"), phantom_ty, vec![]),
            pl_field(Some("x"), pl_ty("u32"), vec![]),
        ],
    };
    let opts = pl_resolve_all(&fields);
    let plan = build_plan(&fields, &opts, false).unwrap();
    assert_eq!(plan.parameters.len(), 1);
    assert_eq!(plan.parameters[0].index, 2);
    assert_eq!(plan.values[0].value, ValueExpr::DefaultOnly(DefaultKind::AutoUnit));
    assert_eq!(plan.values[1].value, ValueExpr::DefaultOnly(DefaultKind::AutoMarker));
    assert_eq!(plan.values[2].value, ValueExpr::Forward);
}

#[test]
fn a_declared_default_field_contributes_its_expression() {
    let blocks = pl_block(vec![pl_marker(
        "default",
        MarkerValue::EqOther("compute()".to_string()),
    )]);
    let fields = FieldList {
        kind: ListKind::Named,
        fields: vec![pl_field(Some("x"), pl_ty("u32"), blocks)],
    };
    let opts = pl_resolve_all(&fields);
    let plan = build_plan(&fields, &opts, false).unwrap();
    assert!(plan.parameters.is_empty());
    assert_eq!(
        plan.values[0].value,
        ValueExpr::DefaultOnly(DefaultKind::Custom(ExprText::Raw("compute()".to_string())))
    );
}

#[test]
fn an_optional_field_takes_the_option_wrapper() {
    let blocks = pl_block(vec![pl_marker("optional", MarkerValue::Bare)]);
    let fields = FieldList {
        kind: ListKind::Named,
        fields: vec![pl_field(Some("x"), pl_ty("u32"), blocks)],
    };
    let opts = pl_resolve_all(&fields);
    let plan = build_plan(&fields, &opts, false).unwrap();
    assert_eq!(plan.parameters.len(), 1);
    assert_eq!(plan.parameters[0].ty, ParamType::OptionOf("u32".to_string()));
    assert_eq!(plan.values[0].value, ValueExpr::OptionalOr(DefaultKind::Trait));
}

#[test]
fn an_optional_field_with_default_substitutes_that_expression() {
    let blocks = pl_block(vec![
        pl_marker("optional", MarkerValue::Bare),
        pl_marker("default", MarkerValue::EqOther("42".to_string())),
    ]);
    let fields = FieldList {
        kind: ListKind::Named,
        fields: vec![pl_field(Some("x"), pl_ty("u32"), blocks)],
    };
    let opts = pl_resolve_all(&fields);
    let plan = build_plan(&fields, &opts, false).unwrap();
    assert_eq!(plan.parameters[0].ty, ParamType::OptionOf("u32".to_string()));
    assert_eq!(
        plan.values[0].value,
        ValueExpr::OptionalOr(DefaultKind::Custom(ExprText::Raw("42".to_string())))
    );
}

#[test]
fn a_convert_field_widens_its_parameter() {
    let blocks = pl_block(vec![pl_marker("into", MarkerValue::Bare)]);
    let fields = FieldList {
        kind: ListKind::Named,
        fields: vec![pl_field(Some("s"), pl_ty("String"), blocks)],
    };
    let opts = pl_resolve_all(&fields);
    let plan = build_plan(&fields, &opts, false).unwrap();
    assert_eq!(plan.parameters[0].ty, ParamType::IntoOf("String".to_string()));
    assert_eq!(plan.values[0].value, ValueExpr::Convert);
}

#[test]
fn a_convert_each_field_takes_an_iterable_of_the_inferred_element() {
    let vec_ty = FieldType {
        kind: TypeKind::Path(vec![PathSegment {
            name: "Vec".to_string(),
            args: Some(vec![GenericArg::TypeArg("i32".to_string())]),
        }]),
        text: "Vec<i32>".to_string(),
    };
    let blocks = pl_block(vec![pl_marker("into_iter", MarkerValue::Bare)]);
    let fields = FieldList {
        kind: ListKind::Named,
        fields: vec![pl_field(Some("xs"), vec_ty, blocks)],
    };
    let opts = pl_resolve_all(&fields);
    let plan = build_plan(&fields, &opts, false).unwrap();
    assert_eq!(plan.parameters[0].ty, ParamType::IterOf("i32".to_string()));
    assert_eq!(plan.values[0].value, ValueExpr::Collect);
}

#[test]
fn constant_mode_rejects_a_trait_default() {
    let opts = vec![FieldOptions {
        default: Some(DefaultKind::Trait),
        optional: false,
        into: false,
        into_iter: None,
    }];
    let fields = FieldList {
        kind: ListKind::Named,
        fields: vec![pl_field(Some("x"), pl_ty("u32"), vec![])],
    };
    assert_eq!(
        build_plan(&fields, &opts, true),
        Err(FieldError { field: 0, error: ConfigError::ConstantTraitDefault })
    );
}

#[test]
fn constant_mode_rejects_optional_without_expression_default() {
    let opts = vec![FieldOptions {
        default: None,
        optional: true,
        into: false,
        into_iter: None,
    }];
    let fields = FieldList {
        kind: ListKind::Named,
        fields: vec![pl_field(Some("x"), pl_ty("u32"), vec![])],
    };
    assert_eq!(
        build_plan(&fields, &opts, true),
        Err(FieldError { field: 0, error: ConfigError::ConstantOptionalNeedsDefault })
    );
}

#[test]
fn constant_mode_rejects_convert() {
    let opts = vec![FieldOptions {
        default: None,
        optional: false,
        into: true,
        into_iter: None,
    }];
    let fields = FieldList {
        kind: ListKind::Named,
        fields: vec![pl_field(Some("s"), pl_ty("String"), vec![])],
    };
    assert_eq!(
        build_plan(&fields, &opts, true),
        Err(FieldError { field: 0, error: ConfigError::ConstantConvert })
    );
}

#[test]
fn constant_mode_rejects_convert_each() {
    let opts = vec![FieldOptions {
        default: None,
        optional: false,
        into: false,
        into_iter: Some("u8".to_string()),
    }];
    let fields = FieldList {
        kind: ListKind::Named,
        fields: vec![pl_field(Some("xs"), pl_ty("Bytes"), vec![])],
    };
    assert_eq!(
        build_plan(&fields, &opts, true),
        Err(FieldError { field: 0, error: ConfigError::ConstantConvertEach })
    );
}

#[test]
fn constant_mode_names_the_first_offending_field() {
    let opts = vec![
        FieldOptions { default: None, optional: false, into: false, into_iter: None },
        FieldOptions { default: None, optional: false, into: true, into_iter: None },
        FieldOptions { default: Some(DefaultKind::Trait), optional: false, into: false, into_iter: None },
    ];
    let fields = FieldList {
        kind: ListKind::Named,
        fields: vec![
            pl_field(Some("a"), pl_ty("u32"), vec![]),
            pl_field(Some("b"), pl_ty("String"), vec![]),
            pl_field(Some("c"), pl_ty("u64"), vec![]),
        ],
    };
    assert_eq!(
        build_plan(&fields, &opts, true),
        Err(FieldError { field: 1, error: ConfigError::ConstantConvert })
    );
}

#[test]
fn constant_mode_accepts_expression_defaults_and_plain_fields() {
    let opts = vec![
        FieldOptions {
            default: Some(DefaultKind::Custom(ExprText::Raw("7".to_string()))),
            optional: true,
            into: false,
            into_iter: None,
        },
        FieldOptions { default: None, optional: false, into: false, into_iter: None },
        FieldOptions { default: Some(DefaultKind::AutoUnit), optional: false, into: false, into_iter: None },
    ];
    let fields = FieldList {
        kind: ListKind::Named,
        fields: vec![
            pl_field(Some("a"), pl_ty("u32"), vec![]),
            pl_field(Some("b"), pl_ty("u64"), vec![]),
            pl_field(Some("u"), FieldType { kind: TypeKind::EmptyTuple, text: "()".to_string() }, vec![]),
        ],
    };
    let plan = build_plan(&fields, &opts, true).unwrap();
    assert_eq!(plan.parameters.len(), 2);
}

#[test]
fn value_slots_always_cover_every_field_in_order() {
    let blocks = pl_block(vec![pl_marker(
        "default",
        MarkerValue::EqOther("1".to_string()),
    )]);
    let fields = FieldList {
        kind: ListKind::Unnamed,
        fields: vec![
            pl_field(None, pl_ty("u8"), blocks),
            pl_field(None, pl_ty("u16"), vec![]),
        ],
    };
    let opts = pl_resolve_all(&fields);
    let plan = build_plan(&fields, &opts, false).unwrap();
    assert_eq!(plan.values.len(), 2);
    assert_eq!(plan.values[0].index, 0);
    assert_eq!(plan.values[1].index, 1);
    assert_eq!(plan.parameters.len(), 1);
    assert_eq!(plan.parameters[0].index, 1);
}

#[test]
fn optional_substitution_takes_present_values() {
    assert_eq!(resolve_optional(Some(5u32), 9), 5);
}

#[test]
fn optional_substitution_falls_back_when_absent() {
    assert_eq!(resolve_optional(None::<u32>, 9), 9);
}
