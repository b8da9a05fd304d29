//! The plan builder: a field list and its resolved options become a
//! [`ConstructionPlan`] — the ordered parameters of the constructor and one
//! value-producing expression per field — after the constant-safety
//! restrictions are enforced.
//!
//! The behaviour is pinned down by [`build_plan_spec`]; the executable
//! [`build_plan`] is proved to return exactly that value. The laws at the
//! end of the module state the shape guarantees the plan gives.

use vstd::prelude::*;
use crate::errors::{ConfigError, FieldError};
use crate::field_options::{DefaultKind, DefaultKindView, FieldOptions, FieldOptionsView,
    infer_elem_spec, is_auto_default_type, is_marker_path, resolve_field_spec};
use crate::model::{ExprTextView, FieldDeclView, FieldList, FieldTypeView, GenericArgView, ListKind,
    MarkerBlockView, PathSegmentView, TypeKindView};
use crate::strutil::clone_opt_string;

verus! {

/// The syntactic category of the constructed value: no fields, positional
/// fields, or named fields.
#[derive(Clone, Copy, PartialEq, Eq, Structural, Debug)]
pub enum Shape {
    NoFields,
    Positional,
    Named,
}

/// The type a constructor parameter is declared at. `Exact`, `OptionOf` and
/// `IntoOf` carry the field's own type text; `IterOf` carries the element
/// type the parameter's items convert into.
#[derive(Clone, PartialEq, Eq, Debug)]
pub enum ParamType {
    /// exactly the field's declared type
    Exact(String),
    /// the optional wrapper around the field's declared type
    OptionOf(String),
    /// any value convertible into the field's declared type
    IntoOf(String),
    /// any finite iterable of values convertible to the element type
    IterOf(String),
}

pub enum ParamTypeView {
    Exact(Seq<char>),
    OptionOf(Seq<char>),
    IntoOf(Seq<char>),
    IterOf(Seq<char>),
}

impl DeepView for ParamType {
    type V = ParamTypeView;

    open spec fn deep_view(&self) -> ParamTypeView {
        match self {
            ParamType::Exact(s) => ParamTypeView::Exact(s@),
            ParamType::OptionOf(s) => ParamTypeView::OptionOf(s@),
            ParamType::IntoOf(s) => ParamTypeView::IntoOf(s@),
            ParamType::IterOf(s) => ParamTypeView::IterOf(s@),
        }
    }
}

/// One constructor parameter: the index and name of the field it feeds, and
/// the type it is declared at. A positional field's parameter has no name;
/// the renderer derives one from the index.
#[derive(Clone, PartialEq, Eq, Debug)]
pub struct Parameter {
    pub index: usize,
    pub name: Option<String>,
    pub ty: ParamType,
}

pub struct ParameterView {
    pub index: usize,
    pub name: Option<Seq<char>>,
    pub ty: ParamTypeView,
}

impl DeepView for Parameter {
    type V = ParameterView;

    open spec fn deep_view(&self) -> ParameterView {
        ParameterView { index: self.index, name: self.name.deep_view(), ty: self.ty.deep_view() }
    }
}

/// The value-producing expression of one field, in terms of the field's
/// parameter and resolved default.
#[derive(Clone, PartialEq, Eq, Debug)]
pub enum ValueExpr {
    /// the parameter, forwarded unchanged
    Forward,
    /// the parameter, converted into the field's type
    Convert,
    /// the parameter, iterated and collected into the field's container type
    Collect,
    /// no parameter: the resolved default supplies the value
    DefaultOnly(DefaultKind),
    /// the optional parameter's value when present, else the default
    OptionalOr(DefaultKind),
}

pub enum ValueExprView {
    Forward,
    Convert,
    Collect,
    DefaultOnly(DefaultKindView),
    OptionalOr(DefaultKindView),
}

impl DeepView for ValueExpr {
    type V = ValueExprView;

    open spec fn deep_view(&self) -> ValueExprView {
        match self {
            ValueExpr::Forward => ValueExprView::Forward,
            ValueExpr::Convert => ValueExprView::Convert,
            ValueExpr::Collect => ValueExprView::Collect,
            ValueExpr::DefaultOnly(d) => ValueExprView::DefaultOnly(d.deep_view()),
            ValueExpr::OptionalOr(d) => ValueExprView::OptionalOr(d.deep_view()),
        }
    }
}

/// One field's slot in the constructed value: its index and name, and the
/// expression producing its value.
#[derive(Clone, PartialEq, Eq, Debug)]
pub struct FieldInit {
    pub index: usize,
    pub name: Option<String>,
    pub value: ValueExpr,
}

pub struct FieldInitView {
    pub index: usize,
    pub name: Option<Seq<char>>,
    pub value: ValueExprView,
}

impl DeepView for FieldInit {
    type V = FieldInitView;

    open spec fn deep_view(&self) -> FieldInitView {
        FieldInitView {
            index: self.index,
            name: self.name.deep_view(),
            value: self.value.deep_view(),
        }
    }
}

/// One constructor's plan: the parameters of its external signature, in
/// field order with the fully defaulted fields filtered out, and one value
/// expression per field in declaration order.
#[derive(Clone, PartialEq, Eq, Debug)]
pub struct ConstructionPlan {
    pub shape: Shape,
    pub parameters: Vec<Parameter>,
    pub values: Vec<FieldInit>,
}

pub struct ConstructionPlanView {
    pub shape: Shape,
    pub parameters: Seq<ParameterView>,
    pub values: Seq<FieldInitView>,
}

impl DeepView for ConstructionPlan {
    type V = ConstructionPlanView;

    open spec fn deep_view(&self) -> ConstructionPlanView {
        ConstructionPlanView {
            shape: self.shape,
            parameters: self.parameters.deep_view(),
            values: self.values.deep_view(),
        }
    }
}

/// The plan's shape, from the field list's syntactic category.
pub open spec fn shape_of(kind: ListKind) -> Shape {
    match kind {
        ListKind::Unit => Shape::NoFields,
        ListKind::Unnamed => Shape::Positional,
        ListKind::Named => Shape::Named,
    }
}

/// The first constant-safety rule one field's options violate: a
/// trait-provided default, optionality without an expression default, and
/// both conversion forms are not constant-evaluable.
pub open spec fn const_violation(o: FieldOptionsView) -> Option<ConfigError> {
    if o.default == Some(DefaultKindView::Trait) {
        Some(ConfigError::ConstantTraitDefault)
    } else if o.optional && !(o.default matches Some(DefaultKindView::Custom(_))) {
        Some(ConfigError::ConstantOptionalNeedsDefault)
    } else if o.into {
        Some(ConfigError::ConstantConvert)
    } else if o.into_iter is Some {
        Some(ConfigError::ConstantConvertEach)
    } else {
        None
    }
}

/// The first field at or after `i` violating a constant-safety rule.
pub open spec fn first_const_violation_from(opts: Seq<FieldOptionsView>, i: int) -> Option<
    FieldError,
>
    decreases opts.len() - i,
{
    if i < 0 || i >= opts.len() {
        None
    } else {
        match const_violation(opts[i]) {
            Some(e) => Some(FieldError { field: i as usize, error: e }),
            None => first_const_violation_from(opts, i + 1),
        }
    }
}

/// The parameter type one field contributes, when it contributes one: a
/// fully defaulted field takes no caller input; an optional field takes the
/// optional wrapper; conversion and collection widen the accepted type;
/// otherwise the parameter is exactly the field's type.
pub open spec fn param_type_of(o: FieldOptionsView, ty: FieldTypeView) -> Option<ParamTypeView> {
    match o.default {
        Some(_) => if o.optional {
            Some(ParamTypeView::OptionOf(ty.text))
        } else {
            None
        },
        None => if o.optional {
            Some(ParamTypeView::OptionOf(ty.text))
        } else if o.into {
            Some(ParamTypeView::IntoOf(ty.text))
        } else {
            match o.into_iter {
                Some(t) => Some(ParamTypeView::IterOf(t)),
                None => Some(ParamTypeView::Exact(ty.text)),
            }
        },
    }
}

/// The value expression of one field: a default when the caller supplies
/// nothing, an optional substitution when the caller may, a conversion or
/// collection when requested, else the forwarded parameter. An optional
/// field without a declared default falls back to the trait-provided one.
pub open spec fn value_of(o: FieldOptionsView) -> ValueExprView {
    match o.default {
        Some(d) => if o.optional {
            ValueExprView::OptionalOr(d)
        } else {
            ValueExprView::DefaultOnly(d)
        },
        None => if o.optional {
            ValueExprView::OptionalOr(DefaultKindView::Trait)
        } else if o.into {
            ValueExprView::Convert
        } else if o.into_iter is Some {
            ValueExprView::Collect
        } else {
            ValueExprView::Forward
        },
    }
}

/// The parameter field `i` contributes, if any.
pub open spec fn mk_param(i: int, f: FieldDeclView, o: FieldOptionsView) -> Option<ParameterView> {
    match param_type_of(o, f.ty) {
        None => None,
        Some(t) => Some(ParameterView { index: i as usize, name: f.name, ty: t }),
    }
}

/// The value slot of field `i`.
pub open spec fn mk_value(i: int, f: FieldDeclView, o: FieldOptionsView) -> FieldInitView {
    FieldInitView { index: i as usize, name: f.name, value: value_of(o) }
}

/// The parameters contributed by the first `n` fields, in order.
pub open spec fn params_upto(
    fields: Seq<FieldDeclView>,
    opts: Seq<FieldOptionsView>,
    n: int,
) -> Seq<ParameterView>
    decreases n,
{
    if n <= 0 {
        Seq::empty()
    } else {
        let p = params_upto(fields, opts, n - 1);
        match mk_param(n - 1, fields[n - 1], opts[n - 1]) {
            Some(par) => p.push(par),
            None => p,
        }
    }
}

/// The value slots of the first `n` fields, in order.
pub open spec fn values_upto(
    fields: Seq<FieldDeclView>,
    opts: Seq<FieldOptionsView>,
    n: int,
) -> Seq<FieldInitView>
    decreases n,
{
    if n <= 0 {
        Seq::empty()
    } else {
        values_upto(fields, opts, n - 1).push(mk_value(n - 1, fields[n - 1], opts[n - 1]))
    }
}

/// Full plan construction: under constant safety the first violating field
/// decides the error; otherwise every field contributes its value slot in
/// declaration order and its parameter when it takes one.
pub open spec fn build_plan_spec(
    fields: Seq<FieldDeclView>,
    opts: Seq<FieldOptionsView>,
    kind: ListKind,
    constant: bool,
) -> Result<ConstructionPlanView, FieldError> {
    if constant && first_const_violation_from(opts, 0) is Some {
        Err(first_const_violation_from(opts, 0)->Some_0)
    } else {
        Ok(
            ConstructionPlanView {
                shape: shape_of(kind),
                parameters: params_upto(fields, opts, fields.len() as int),
                values: values_upto(fields, opts, fields.len() as int),
            },
        )
    }
}

/// Build the construction plan for one field list, or report the first
/// field violating a constant-safety rule.
pub fn build_plan(fields: &FieldList, opts: &Vec<FieldOptions>, constant: bool) -> (r: Result<
    ConstructionPlan,
    FieldError,
>)
    requires
        opts@.len() == fields.fields@.len(),
    ensures
        match r {
            Ok(p) => build_plan_spec(
                fields.fields.deep_view(),
                opts.deep_view(),
                fields.kind,
                constant,
            ) == Ok::<ConstructionPlanView, FieldError>(p.deep_view()),
            Err(e) => build_plan_spec(
                fields.fields.deep_view(),
                opts.deep_view(),
                fields.kind,
                constant,
            ) == Err::<ConstructionPlanView, FieldError>(e),
        },
{
    let ghost fv = fields.fields.deep_view();
    let ghost ov = opts.deep_view();
    let n = fields.fields.len();
    if constant {
        let mut i: usize = 0;
        while i < n
            invariant
                n == fields.fields@.len(),
                n == opts@.len(),
                fv == fields.fields.deep_view(),
                ov == opts.deep_view(),
                constant,
                i <= n,
                first_const_violation_from(ov, 0) == first_const_violation_from(ov, i as int),
            decreases n - i,
        {
            let o = &opts[i];
            proof {
                assert(ov.len() == opts@.len());
                assert(ov[i as int] == opts@[i as int].deep_view());
            }
            if matches!(o.default, Some(DefaultKind::Trait)) {
                return Err(FieldError { field: i, error: ConfigError::ConstantTraitDefault });
            }
            if o.optional && !matches!(o.default, Some(DefaultKind::Custom(_))) {
                return Err(
                    FieldError { field: i, error: ConfigError::ConstantOptionalNeedsDefault },
                );
            }
            if o.into {
                return Err(FieldError { field: i, error: ConfigError::ConstantConvert });
            }
            if o.into_iter.is_some() {
                return Err(FieldError { field: i, error: ConfigError::ConstantConvertEach });
            }
            i += 1;
        }
    }
    let mut parameters: Vec<Parameter> = Vec::new();
    let mut values: Vec<FieldInit> = Vec::new();
    let mut i: usize = 0;
    while i < n
        invariant
            n == fields.fields@.len(),
            n == opts@.len(),
            fv == fields.fields.deep_view(),
            ov == opts.deep_view(),
            i <= n,
            parameters.deep_view() == params_upto(fv, ov, i as int),
            values.deep_view() == values_upto(fv, ov, i as int),
        decreases n - i,
    {
        let f = &fields.fields[i];
        let o = &opts[i];
        proof {
            assert(fv[i as int] == fields.fields@[i as int].deep_view());
            assert(ov[i as int] == opts@[i as int].deep_view());
        }
        let pt: Option<ParamType> = match &o.default {
            Some(_) => if o.optional {
                Some(ParamType::OptionOf(f.ty.text.clone()))
            } else {
                None
            },
            None => if o.optional {
                Some(ParamType::OptionOf(f.ty.text.clone()))
            } else if o.into {
                Some(ParamType::IntoOf(f.ty.text.clone()))
            } else {
                match &o.into_iter {
                    Some(t) => Some(ParamType::IterOf(t.clone())),
                    None => Some(ParamType::Exact(f.ty.text.clone())),
                }
            },
        };
        let value: ValueExpr = match &o.default {
            Some(d) => if o.optional {
                ValueExpr::OptionalOr(d.clone())
            } else {
                ValueExpr::DefaultOnly(d.clone())
            },
            None => if o.optional {
                ValueExpr::OptionalOr(DefaultKind::Trait)
            } else if o.into {
                ValueExpr::Convert
            } else if o.into_iter.is_some() {
                ValueExpr::Collect
            } else {
                ValueExpr::Forward
            },
        };
        match pt {
            Some(t) => {
                let par = Parameter { index: i, name: clone_opt_string(&f.name), ty: t };
                parameters.push(par);
                proof {
                    assert(parameters.deep_view() =~= params_upto(fv, ov, i as int + 1));
                }
            },
            None => {
                proof {
                    assert(parameters.deep_view() =~= params_upto(fv, ov, i as int + 1));
                }
            },
        }
        let init = FieldInit { index: i, name: clone_opt_string(&f.name), value };
        values.push(init);
        proof {
            assert(values.deep_view() =~= values_upto(fv, ov, i as int + 1));
        }
        i += 1;
    }
    let shape = match fields.kind {
        ListKind::Unit => Shape::NoFields,
        ListKind::Unnamed => Shape::Positional,
        ListKind::Named => Shape::Named,
    };
    Ok(ConstructionPlan { shape, parameters, values })
}

proof fn lemma_upto_shapes(fields: Seq<FieldDeclView>, opts: Seq<FieldOptionsView>, n: int)
    requires
        0 <= n,
    ensures
        params_upto(fields, opts, n).len() <= n,
        values_upto(fields, opts, n).len() == n,
        forall|i: int|
            0 <= i < n ==> values_upto(fields, opts, n)[i] == mk_value(i, fields[i], opts[i]),
    decreases n,
{
    if n > 0 {
        lemma_upto_shapes(fields, opts, n - 1);
    }
}

/// Law: a successfully built plan has exactly one value expression per
/// field, in declaration order, while the parameters are the filtered
/// subsequence of the fields that take caller input — so never more than
/// the field count. The two sequences are positionally independent.
pub proof fn lemma_plan_covers_fields(
    fields: Seq<FieldDeclView>,
    opts: Seq<FieldOptionsView>,
    kind: ListKind,
    constant: bool,
)
    requires
        build_plan_spec(fields, opts, kind, constant) is Ok,
    ensures
        build_plan_spec(fields, opts, kind, constant)->Ok_0.values.len() == fields.len(),
        forall|i: int|
            0 <= i < fields.len() ==> build_plan_spec(fields, opts, kind, constant)->Ok_0.values[i]
                == mk_value(i, fields[i], opts[i]),
        build_plan_spec(fields, opts, kind, constant)->Ok_0.parameters.len() <= fields.len(),
        build_plan_spec(fields, opts, kind, constant)->Ok_0.shape == shape_of(kind),
{
    lemma_upto_shapes(fields, opts, fields.len() as int);
}

/// Law: a field list none of whose fields carries any resolved option
/// contributes one parameter per field, in declaration order, each declared
/// at exactly the field's own type, and every field's value is the forwarded
/// parameter. In particular the constructor of a product type with N plain
/// fields takes exactly N parameters and fills the fields positionally from
/// them.
pub proof fn lemma_plain_fields_plan(
    fields: Seq<FieldDeclView>,
    opts: Seq<FieldOptionsView>,
    kind: ListKind,
    constant: bool,
)
    requires
        fields.len() == opts.len(),
        forall|i: int|
            0 <= i < opts.len() ==> opts[i] == (FieldOptionsView {
                default: None,
                optional: false,
                into: false,
                into_iter: None,
            }),
    ensures
        build_plan_spec(fields, opts, kind, constant) is Ok,
        build_plan_spec(fields, opts, kind, constant)->Ok_0.parameters.len() == fields.len(),
        forall|i: int|
            0 <= i < fields.len() ==> build_plan_spec(fields, opts, kind, constant)->Ok_0.parameters[i]
                == (ParameterView {
                index: i as usize,
                name: fields[i].name,
                ty: ParamTypeView::Exact(fields[i].ty.text),
            }),
        build_plan_spec(fields, opts, kind, constant)->Ok_0.values.len() == fields.len(),
        forall|i: int|
            0 <= i < fields.len() ==> build_plan_spec(fields, opts, kind, constant)->Ok_0.values[i]
                == (FieldInitView {
                index: i as usize,
                name: fields[i].name,
                value: ValueExprView::Forward,
            }),
{
    lemma_no_const_violation_plain(opts, 0);
    lemma_plain_fields_upto(fields, opts, fields.len() as int);
}

proof fn lemma_no_const_violation_plain(opts: Seq<FieldOptionsView>, i: int)
    requires
        forall|j: int|
            0 <= j < opts.len() ==> opts[j] == (FieldOptionsView {
                default: None,
                optional: false,
                into: false,
                into_iter: None,
            }),
    ensures
        first_const_violation_from(opts, i) is None,
    decreases opts.len() - i,
{
    if 0 <= i < opts.len() {
        lemma_no_const_violation_plain(opts, i + 1);
    }
}

proof fn lemma_plain_fields_upto(fields: Seq<FieldDeclView>, opts: Seq<FieldOptionsView>, n: int)
    requires
        fields.len() == opts.len(),
        0 <= n <= fields.len(),
        forall|i: int|
            0 <= i < opts.len() ==> opts[i] == (FieldOptionsView {
                default: None,
                optional: false,
                into: false,
                into_iter: None,
            }),
    ensures
        params_upto(fields, opts, n).len() == n,
        forall|i: int|
            0 <= i < n ==> params_upto(fields, opts, n)[i] == (ParameterView {
                index: i as usize,
                name: fields[i].name,
                ty: ParamTypeView::Exact(fields[i].ty.text),
            }),
        values_upto(fields, opts, n).len() == n,
        forall|i: int|
            0 <= i < n ==> values_upto(fields, opts, n)[i] == (FieldInitView {
                index: i as usize,
                name: fields[i].name,
                value: ValueExprView::Forward,
            }),
    decreases n,
{
    if n > 0 {
        lemma_plain_fields_upto(fields, opts, n - 1);
    }
}

/// Law: a field whose type is the empty tuple or the recognized zero-sized
/// marker type, once its options resolve successfully, carries the
/// corresponding automatic default, contributes no constructor parameter,
/// and its value is that default alone.
pub proof fn lemma_auto_default_field(
    blocks: Seq<MarkerBlockView>,
    ty: FieldTypeView,
    o: FieldOptionsView,
)
    requires
        is_auto_default_type(ty.kind),
        resolve_field_spec(blocks, ty) == Ok::<FieldOptionsView, ConfigError>(o),
    ensures
        o.default == Some(
            if is_marker_path(ty.kind) {
                DefaultKindView::AutoMarker
            } else {
                DefaultKindView::AutoUnit
            },
        ),
        !o.optional,
        param_type_of(o, ty) is None,
        value_of(o) == ValueExprView::DefaultOnly(o.default->Some_0),
{
}

/// Law: a field resolved optional with no declared default takes the
/// optional wrapper around its own type, and its value substitutes the
/// trait-provided default when the caller supplies the absent form and the
/// supplied value when present.
pub proof fn lemma_optional_field(blocks: Seq<MarkerBlockView>, ty: FieldTypeView, o: FieldOptionsView)
    requires
        resolve_field_spec(blocks, ty) == Ok::<FieldOptionsView, ConfigError>(o),
        o.optional,
        o.default is None,
    ensures
        param_type_of(o, ty) == Some(ParamTypeView::OptionOf(ty.text)),
        value_of(o) == ValueExprView::OptionalOr(DefaultKindView::Trait),
{
}

/// Law: a field resolved optional with a declared default expression takes
/// the optional wrapper around its own type, and its value substitutes that
/// expression when the caller supplies the absent form and the supplied
/// value when present.
pub proof fn lemma_optional_field_with_default(
    blocks: Seq<MarkerBlockView>,
    ty: FieldTypeView,
    o: FieldOptionsView,
    e: ExprTextView,
)
    requires
        resolve_field_spec(blocks, ty) == Ok::<FieldOptionsView, ConfigError>(o),
        o.optional,
        o.default == Some(DefaultKindView::Custom(e)),
    ensures
        param_type_of(o, ty) == Some(ParamTypeView::OptionOf(ty.text)),
        value_of(o) == ValueExprView::OptionalOr(DefaultKindView::Custom(e)),
{
}

/// Law: a field resolved with conversion-on-construct, on a type without an
/// automatic default, takes a parameter accepting any value convertible
/// into the field's type, and its value applies the conversion.
pub proof fn lemma_convert_field(blocks: Seq<MarkerBlockView>, ty: FieldTypeView, o: FieldOptionsView)
    requires
        resolve_field_spec(blocks, ty) == Ok::<FieldOptionsView, ConfigError>(o),
        o.into,
        !is_auto_default_type(ty.kind),
    ensures
        o.default is None,
        !o.optional,
        param_type_of(o, ty) == Some(ParamTypeView::IntoOf(ty.text)),
        value_of(o) == ValueExprView::Convert,
{
}

/// Law: a field resolved with convert-each-on-construct, on a type without
/// an automatic default, takes a parameter accepting any finite iterable of
/// values convertible to the element type, and its value collects them into
/// the field's container type in order.
pub proof fn lemma_convert_each_field(
    blocks: Seq<MarkerBlockView>,
    ty: FieldTypeView,
    o: FieldOptionsView,
    t: Seq<char>,
)
    requires
        resolve_field_spec(blocks, ty) == Ok::<FieldOptionsView, ConfigError>(o),
        o.into_iter == Some(t),
        !is_auto_default_type(ty.kind),
    ensures
        o.default is None,
        !o.optional,
        !o.into,
        param_type_of(o, ty) == Some(ParamTypeView::IterOf(t)),
        value_of(o) == ValueExprView::Collect,
{
}

/// Law: element-type inference for the bare convert-each form yields the
/// first angle-bracketed type argument of the field type's last path
/// segment.
pub proof fn lemma_inferred_element(
    ty: FieldTypeView,
    segs: Seq<PathSegmentView>,
    args: Seq<GenericArgView>,
    t: Seq<char>,
)
    requires
        ty.kind == TypeKindView::Path(segs),
        segs.len() > 0,
        segs[segs.len() - 1].args == Some(args),
        args.len() > 0,
        args[0] == GenericArgView::TypeArg(t),
    ensures
        infer_elem_spec(ty) == Ok::<Seq<char>, ConfigError>(t),
{
}

} // verus!
