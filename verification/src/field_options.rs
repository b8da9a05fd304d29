//! Field-level option resolution: the configuration markers attached to one
//! field become a validated [`FieldOptions`] value, with automatic defaulting
//! for zero-sized marker fields and the mutual-exclusion rules applied.
//!
//! The behaviour is pinned down by [`resolve_field_spec`]; the executable
//! [`resolve_field_options`] is proved to return exactly that value.

use vstd::prelude::*;
use crate::errors::{ConfigError, FieldKey};
use crate::model::{ExprText, ExprTextView, FieldType, FieldTypeView, GenericArg, GenericArgView, Marker,
    MarkerBlock, MarkerBlockView, MarkerValue, MarkerValueView, MarkerView, PathSegment,
    TypeKind, TypeKindView};
use crate::strutil::str_eq;

verus! {

/// A default declared by a marker: the bare form requests the type's
/// trait-provided default, the `= expression` form embeds the expression.
#[derive(Clone, PartialEq, Eq, Debug)]
pub enum DefaultDecl {
    Trait,
    Custom(ExprText),
}

pub enum DefaultDeclView {
    Trait,
    Custom(ExprTextView),
}

impl DeepView for DefaultDecl {
    type V = DefaultDeclView;

    open spec fn deep_view(&self) -> DefaultDeclView {
        match self {
            DefaultDecl::Trait => DefaultDeclView::Trait,
            DefaultDecl::Custom(e) => DefaultDeclView::Custom(e.deep_view()),
        }
    }
}

/// A field's resolved default source: inferred from a zero-sized type, the
/// trait-provided value, or a caller-supplied expression.
#[derive(PartialEq, Eq, Debug)]
pub enum DefaultKind {
    /// the canonical zero value of the empty tuple type
    AutoUnit,
    /// the canonical zero value of the recognized zero-sized marker type
    AutoMarker,
    /// the type's trait-provided default value
    Trait,
    /// a caller-supplied expression, embedded verbatim
    Custom(ExprText),
}

impl Clone for DefaultKind {
    /// A clone keeps the value.
    fn clone(&self) -> (r: Self)
        ensures
            r == *self,
    {
        match self {
            DefaultKind::AutoUnit => DefaultKind::AutoUnit,
            DefaultKind::AutoMarker => DefaultKind::AutoMarker,
            DefaultKind::Trait => DefaultKind::Trait,
            DefaultKind::Custom(e) => DefaultKind::Custom(e.clone()),
        }
    }
}

pub enum DefaultKindView {
    AutoUnit,
    AutoMarker,
    Trait,
    Custom(ExprTextView),
}

impl DeepView for DefaultKind {
    type V = DefaultKindView;

    open spec fn deep_view(&self) -> DefaultKindView {
        match self {
            DefaultKind::AutoUnit => DefaultKindView::AutoUnit,
            DefaultKind::AutoMarker => DefaultKindView::AutoMarker,
            DefaultKind::Trait => DefaultKindView::Trait,
            DefaultKind::Custom(e) => DefaultKindView::Custom(e.deep_view()),
        }
    }
}

/// Resolved field-scoped configuration, consumed by the plan builder.
#[derive(Clone, PartialEq, Eq, Debug)]
pub struct FieldOptions {
    pub default: Option<DefaultKind>,
    /// the constructor takes an optional value and falls back to the default
    pub optional: bool,
    /// the constructor accepts any value convertible into the field's type
    pub into: bool,
    /// the constructor accepts any finite sequence of elements convertible
    /// to this element type, the text verbatim
    pub into_iter: Option<String>,
}

pub struct FieldOptionsView {
    pub default: Option<DefaultKindView>,
    pub optional: bool,
    pub into: bool,
    pub into_iter: Option<Seq<char>>,
}

impl DeepView for FieldOptions {
    type V = FieldOptionsView;

    open spec fn deep_view(&self) -> FieldOptionsView {
        FieldOptionsView {
            default: self.default.deep_view(),
            optional: self.optional,
            into: self.into,
            into_iter: self.into_iter.deep_view(),
        }
    }
}

/// Accumulator of the field-level keys seen so far; `None` means not yet
/// declared.
pub struct FieldArgs {
    pub default: Option<DefaultDecl>,
    pub optional: Option<bool>,
    pub into: Option<bool>,
    pub into_iter: Option<String>,
}

pub struct FieldArgsView {
    pub default: Option<DefaultDeclView>,
    pub optional: Option<bool>,
    pub into: Option<bool>,
    pub into_iter: Option<Seq<char>>,
}

impl DeepView for FieldArgs {
    type V = FieldArgsView;

    open spec fn deep_view(&self) -> FieldArgsView {
        FieldArgsView {
            default: self.default.deep_view(),
            optional: self.optional,
            into: self.into,
            into_iter: self.into_iter.deep_view(),
        }
    }
}

pub open spec fn empty_field_args() -> FieldArgsView {
    FieldArgsView { default: None, optional: None, into: None, into_iter: None }
}

/// Whether a path type names the recognized zero-sized marker type, in its
/// unqualified form or under its two common fully qualified forms. The match
/// is structural on path segments; aliases are not resolved.
pub open spec fn is_marker_path(k: TypeKindView) -> bool {
    match k {
        TypeKindView::Path(segs) => (segs.len() == 1 && segs[0].name == "PhantomData"@) || (
        segs.len() == 3 && (segs[0].name == "core"@ || segs[0].name == "std"@) && segs[1].name
            == "marker"@ && segs[2].name == "PhantomData"@),
        _ => false,
    }
}

/// Whether a field of this type receives an automatic default.
pub open spec fn is_auto_default_type(k: TypeKindView) -> bool {
    is_marker_path(k) || k is EmptyTuple
}

/// Element-type inference for the bare convert-each form: the field type
/// must be a path whose last segment carries an angle-bracketed argument
/// list whose first argument is a type.
pub open spec fn infer_elem_spec(ty: FieldTypeView) -> Result<Seq<char>, ConfigError> {
    match ty.kind {
        TypeKindView::Path(segs) => if segs.len() == 0 {
            Err(ConfigError::CannotInferElemType)
        } else {
            match segs[segs.len() - 1].args {
                None => Err(ConfigError::CannotInferElemType),
                Some(args) => if args.len() == 0 {
                    Err(ConfigError::CannotInferElemType)
                } else {
                    match args[0] {
                        GenericArgView::TypeArg(t) => Ok(t),
                        GenericArgView::OtherArg => Err(ConfigError::ElemArgNotAType),
                    }
                },
            }
        },
        _ => Err(ConfigError::CannotInferElemType),
    }
}

/// Effect of one default marker on the accumulator.
pub open spec fn field_step_default(acc: FieldArgsView, v: MarkerValueView) -> Result<
    FieldArgsView,
    ConfigError,
> {
    if acc.default is Some {
        Err(ConfigError::DuplicateFieldKey(FieldKey::Default))
    } else {
        match v {
            MarkerValueView::Bare => Ok(
                FieldArgsView { default: Some(DefaultDeclView::Trait), ..acc },
            ),
            MarkerValueView::EqBool(b) => Ok(
                FieldArgsView {
                    default: Some(DefaultDeclView::Custom(ExprTextView::BoolLit(b))),
                    ..acc
                },
            ),
            MarkerValueView::EqStr(s) => Ok(
                FieldArgsView {
                    default: Some(DefaultDeclView::Custom(ExprTextView::StrLit(s))),
                    ..acc
                },
            ),
            MarkerValueView::EqOther(t) => Ok(
                FieldArgsView { default: Some(DefaultDeclView::Custom(ExprTextView::Raw(t))), ..acc },
            ),
            MarkerValueView::Group(_) => Err(ConfigError::DefaultNeedsExpression),
        }
    }
}

/// Effect of one optional marker on the accumulator.
pub open spec fn field_step_optional(acc: FieldArgsView, v: MarkerValueView) -> Result<
    FieldArgsView,
    ConfigError,
> {
    if acc.optional is Some {
        Err(ConfigError::DuplicateFieldKey(FieldKey::Optional))
    } else {
        match v {
            MarkerValueView::Bare => Ok(FieldArgsView { optional: Some(true), ..acc }),
            MarkerValueView::EqBool(b) => Ok(FieldArgsView { optional: Some(b), ..acc }),
            _ => Err(ConfigError::OptionalNeedsBool),
        }
    }
}

/// Effect of one convert marker on the accumulator.
pub open spec fn field_step_into(acc: FieldArgsView, v: MarkerValueView) -> Result<
    FieldArgsView,
    ConfigError,
> {
    if acc.into is Some {
        Err(ConfigError::DuplicateFieldKey(FieldKey::Convert))
    } else {
        match v {
            MarkerValueView::Bare => Ok(FieldArgsView { into: Some(true), ..acc }),
            MarkerValueView::EqBool(b) => Ok(FieldArgsView { into: Some(b), ..acc }),
            _ => Err(ConfigError::ConvertNeedsBool),
        }
    }
}

/// Effect of one convert-each marker on the accumulator: the bare form
/// infers the element type from the field's own type, the `= Type` form
/// takes it verbatim.
pub open spec fn field_step_into_iter(
    acc: FieldArgsView,
    v: MarkerValueView,
    ty: FieldTypeView,
) -> Result<FieldArgsView, ConfigError> {
    if acc.into_iter is Some {
        Err(ConfigError::DuplicateFieldKey(FieldKey::ConvertEach))
    } else {
        match v {
            MarkerValueView::Bare => match infer_elem_spec(ty) {
                Ok(t) => Ok(FieldArgsView { into_iter: Some(t), ..acc }),
                Err(e) => Err(e),
            },
            MarkerValueView::EqOther(t) => Ok(FieldArgsView { into_iter: Some(t), ..acc }),
            _ => Err(ConfigError::ConvertEachNeedsType),
        }
    }
}

/// Effect of one field-level marker on the accumulator: dispatch over the
/// recognized key space.
pub open spec fn field_step(acc: FieldArgsView, m: MarkerView, ty: FieldTypeView) -> Result<
    FieldArgsView,
    ConfigError,
> {
    if m.key == "option"@ {
        Err(ConfigError::FieldKeyHintOptional)
    } else if m.key == "default"@ {
        field_step_default(acc, m.value)
    } else if m.key == "optional"@ {
        field_step_optional(acc, m.value)
    } else if m.key == "into"@ {
        field_step_into(acc, m.value)
    } else if m.key == "into_iter"@ {
        field_step_into_iter(acc, m.value, ty)
    } else {
        Err(ConfigError::UnknownFieldKey)
    }
}

/// Left fold of [`field_step`] over a marker sequence; the first error wins.
pub open spec fn field_fold(acc: FieldArgsView, ms: Seq<MarkerView>, ty: FieldTypeView) -> Result<
    FieldArgsView,
    ConfigError,
>
    decreases ms.len(),
{
    if ms.len() == 0 {
        Ok(acc)
    } else {
        match field_step(acc, ms[0], ty) {
            Err(e) => Err(e),
            Ok(a) => field_fold(a, ms.skip(1), ty),
        }
    }
}

/// The declared default combined with automatic default inference: when no
/// default-related marker exists and the field's type is the empty tuple or
/// the recognized zero-sized marker type, the field defaults automatically.
pub open spec fn resolved_default(decl: Option<DefaultDeclView>, ty: FieldTypeView) -> Option<
    DefaultKindView,
> {
    match decl {
        Some(DefaultDeclView::Trait) => Some(DefaultKindView::Trait),
        Some(DefaultDeclView::Custom(e)) => Some(DefaultKindView::Custom(e)),
        None => if is_marker_path(ty.kind) {
            Some(DefaultKindView::AutoMarker)
        } else if ty.kind is EmptyTuple {
            Some(DefaultKindView::AutoUnit)
        } else {
            None
        },
    }
}

/// The mutual-exclusion rules over the declared arguments, in the order they
/// are checked; the first violated rule decides the error.
pub open spec fn field_check(args: FieldArgsView, ty: FieldTypeView) -> Option<ConfigError> {
    let declared = args.default is Some;
    let declared_trait = args.default == Some(DefaultDeclView::Trait);
    let optional = args.optional == Some(true);
    let into = args.into == Some(true);
    let into_iter = args.into_iter is Some;
    let auto = is_auto_default_type(ty.kind);
    if declared_trait && optional {
        Some(ConfigError::TraitDefaultWithOptional)
    } else if declared && into {
        Some(ConfigError::DefaultWithConvert)
    } else if declared && into_iter {
        Some(ConfigError::DefaultWithConvertEach)
    } else if declared && auto {
        Some(ConfigError::DefaultOnAutoField)
    } else if optional && auto {
        Some(ConfigError::OptionalOnAutoField)
    } else if optional && into {
        Some(ConfigError::OptionalWithConvert)
    } else if optional && into_iter {
        Some(ConfigError::OptionalWithConvertEach)
    } else if into && into_iter {
        Some(ConfigError::ConvertWithConvertEach)
    } else {
        None
    }
}

/// Defaulting of the declared arguments into resolved options.
pub open spec fn finish_field(args: FieldArgsView, ty: FieldTypeView) -> FieldOptionsView {
    FieldOptionsView {
        default: resolved_default(args.default, ty),
        optional: args.optional == Some(true),
        into: args.into == Some(true),
        into_iter: args.into_iter,
    }
}

/// The rules applied after parsing: mutual exclusion, then defaulting.
pub open spec fn finish_field_checked(args: FieldArgsView, ty: FieldTypeView) -> Result<
    FieldOptionsView,
    ConfigError,
> {
    match field_check(args, ty) {
        Some(e) => Err(e),
        None => Ok(finish_field(args, ty)),
    }
}

/// Full field-level resolution over one field's configuration blocks: parse
/// the first block, reject an argument-less block, reject a second block,
/// then infer automatic defaults and validate the combinations.
pub open spec fn resolve_field_spec(blocks: Seq<MarkerBlockView>, ty: FieldTypeView) -> Result<
    FieldOptionsView,
    ConfigError,
> {
    if blocks.len() == 0 {
        finish_field_checked(empty_field_args(), ty)
    } else {
        match field_fold(empty_field_args(), blocks[0].markers, ty) {
            Err(e) => Err(e),
            Ok(args) => if blocks[0].markers.len() == 0 {
                Err(ConfigError::EmptyFieldBlock)
            } else if blocks.len() > 1 {
                Err(ConfigError::MultipleFieldBlocks)
            } else {
                finish_field_checked(args, ty)
            },
        }
    }
}

/// Law: a field with no configuration block at all, on a type without an
/// automatic default, resolves to the plain options — no default, not
/// optional, no conversion — so its constructor parameter is exactly the
/// field itself.
pub proof fn lemma_unmarked_field_resolves_plain(ty: FieldTypeView)
    requires
        !is_auto_default_type(ty.kind),
    ensures
        resolve_field_spec(Seq::empty(), ty) == Ok::<FieldOptionsView, ConfigError>(
            FieldOptionsView { default: None, optional: false, into: false, into_iter: None },
        ),
{
}

/// Whether a type names the recognized zero-sized marker type.
pub fn is_marker_type(k: &TypeKind) -> (r: bool)
    ensures
        r == is_marker_path(k.deep_view()),
{
    match k {
        TypeKind::Path(segs) => {
            if segs.len() == 1 {
                str_eq(segs[0].name.as_str(), "PhantomData")
            } else if segs.len() == 3 {
                (str_eq(segs[0].name.as_str(), "core") || str_eq(segs[0].name.as_str(), "std"))
                    && str_eq(segs[1].name.as_str(), "marker") && str_eq(
                    segs[2].name.as_str(),
                    "PhantomData",
                )
            } else {
                false
            }
        },
        _ => false,
    }
}

/// Whether a field of this type receives an automatic default.
pub fn is_auto_default_field(k: &TypeKind) -> (r: bool)
    ensures
        r == is_auto_default_type(k.deep_view()),
{
    is_marker_type(k) || matches!(k, TypeKind::EmptyTuple)
}

/// Infer the convert-each element type from the field's own type.
pub fn infer_element_type(ty: &FieldType) -> (r: Result<String, ConfigError>)
    ensures
        match r {
            Ok(t) => infer_elem_spec(ty.deep_view()) == Ok::<Seq<char>, ConfigError>(t@),
            Err(e) => infer_elem_spec(ty.deep_view()) == Err::<Seq<char>, ConfigError>(e),
        },
{
    match &ty.kind {
        TypeKind::Path(segs) => {
            if segs.len() == 0 {
                Err(ConfigError::CannotInferElemType)
            } else {
                let last: &PathSegment = &segs[segs.len() - 1];
                match &last.args {
                    None => Err(ConfigError::CannotInferElemType),
                    Some(args) => {
                        if args.len() == 0 {
                            Err(ConfigError::CannotInferElemType)
                        } else {
                            match &args[0] {
                                GenericArg::TypeArg(t) => Ok(t.clone()),
                                GenericArg::OtherArg => Err(ConfigError::ElemArgNotAType),
                            }
                        }
                    },
                }
            }
        },
        _ => Err(ConfigError::CannotInferElemType),
    }
}

/// Apply one field-level marker to the accumulator.
fn apply_field_marker(acc: FieldArgs, m: &Marker, ty: &FieldType) -> (r: Result<
    FieldArgs,
    ConfigError,
>)
    ensures
        match r {
            Ok(a) => field_step(acc.deep_view(), m.deep_view(), ty.deep_view()) == Ok::<
                FieldArgsView,
                ConfigError,
            >(a.deep_view()),
            Err(e) => field_step(acc.deep_view(), m.deep_view(), ty.deep_view()) == Err::<
                FieldArgsView,
                ConfigError,
            >(e),
        },
{
    let key = m.key.as_str();
    if str_eq(key, "option") {
        Err(ConfigError::FieldKeyHintOptional)
    } else if str_eq(key, "default") {
        if acc.default.is_some() {
            Err(ConfigError::DuplicateFieldKey(FieldKey::Default))
        } else {
            match &m.value {
                MarkerValue::Bare => Ok(FieldArgs { default: Some(DefaultDecl::Trait), ..acc }),
                MarkerValue::EqBool(b) => Ok(
                    FieldArgs {
                        default: Some(DefaultDecl::Custom(ExprText::BoolLit(*b))),
                        ..acc
                    },
                ),
                MarkerValue::EqStr(s) => Ok(
                    FieldArgs {
                        default: Some(DefaultDecl::Custom(ExprText::StrLit(s.clone()))),
                        ..acc
                    },
                ),
                MarkerValue::EqOther(t) => Ok(
                    FieldArgs {
                        default: Some(DefaultDecl::Custom(ExprText::Raw(t.clone()))),
                        ..acc
                    },
                ),
                MarkerValue::Group(_) => Err(ConfigError::DefaultNeedsExpression),
            }
        }
    } else if str_eq(key, "optional") {
        if acc.optional.is_some() {
            Err(ConfigError::DuplicateFieldKey(FieldKey::Optional))
        } else {
            match &m.value {
                MarkerValue::Bare => Ok(FieldArgs { optional: Some(true), ..acc }),
                MarkerValue::EqBool(b) => Ok(FieldArgs { optional: Some(*b), ..acc }),
                _ => Err(ConfigError::OptionalNeedsBool),
            }
        }
    } else if str_eq(key, "into") {
        if acc.into.is_some() {
            Err(ConfigError::DuplicateFieldKey(FieldKey::Convert))
        } else {
            match &m.value {
                MarkerValue::Bare => Ok(FieldArgs { into: Some(true), ..acc }),
                MarkerValue::EqBool(b) => Ok(FieldArgs { into: Some(*b), ..acc }),
                _ => Err(ConfigError::ConvertNeedsBool),
            }
        }
    } else if str_eq(key, "into_iter") {
        if acc.into_iter.is_some() {
            Err(ConfigError::DuplicateFieldKey(FieldKey::ConvertEach))
        } else {
            match &m.value {
                MarkerValue::Bare => match infer_element_type(ty) {
                    Ok(t) => Ok(FieldArgs { into_iter: Some(t), ..acc }),
                    Err(e) => Err(e),
                },
                MarkerValue::EqOther(t) => Ok(FieldArgs { into_iter: Some(t.clone()), ..acc }),
                _ => Err(ConfigError::ConvertEachNeedsType),
            }
        }
    } else {
        Err(ConfigError::UnknownFieldKey)
    }
}

/// The mutual-exclusion rules and defaulting, applied after parsing.
fn finish_field_options(acc: FieldArgs, ty: &FieldType) -> (r: Result<FieldOptions, ConfigError>)
    ensures
        match r {
            Ok(o) => finish_field_checked(acc.deep_view(), ty.deep_view()) == Ok::<
                FieldOptionsView,
                ConfigError,
            >(o.deep_view()),
            Err(e) => finish_field_checked(acc.deep_view(), ty.deep_view()) == Err::<
                FieldOptionsView,
                ConfigError,
            >(e),
        },
{
    let declared = acc.default.is_some();
    let declared_trait = matches!(acc.default, Some(DefaultDecl::Trait));
    let optional = acc.optional == Some(true);
    let into = acc.into == Some(true);
    let into_iter = acc.into_iter.is_some();
    let auto = is_auto_default_field(&ty.kind);
    if declared_trait && optional {
        return Err(ConfigError::TraitDefaultWithOptional);
    }
    if declared && into {
        return Err(ConfigError::DefaultWithConvert);
    }
    if declared && into_iter {
        return Err(ConfigError::DefaultWithConvertEach);
    }
    if declared && auto {
        return Err(ConfigError::DefaultOnAutoField);
    }
    if optional && auto {
        return Err(ConfigError::OptionalOnAutoField);
    }
    if optional && into {
        return Err(ConfigError::OptionalWithConvert);
    }
    if optional && into_iter {
        return Err(ConfigError::OptionalWithConvertEach);
    }
    if into && into_iter {
        return Err(ConfigError::ConvertWithConvertEach);
    }
    let default = match acc.default {
        Some(DefaultDecl::Trait) => Some(DefaultKind::Trait),
        Some(DefaultDecl::Custom(e)) => Some(DefaultKind::Custom(e)),
        None => {
            if is_marker_type(&ty.kind) {
                Some(DefaultKind::AutoMarker)
            } else if matches!(&ty.kind, TypeKind::EmptyTuple) {
                Some(DefaultKind::AutoUnit)
            } else {
                None
            }
        },
    };
    Ok(FieldOptions { default, optional, into, into_iter: acc.into_iter })
}

/// Resolve the configuration blocks of one field into [`FieldOptions`], or
/// the first configuration error.
pub fn resolve_field_options(blocks: &Vec<MarkerBlock>, ty: &FieldType) -> (r: Result<
    FieldOptions,
    ConfigError,
>)
    ensures
        match r {
            Ok(o) => resolve_field_spec(blocks.deep_view(), ty.deep_view()) == Ok::<
                FieldOptionsView,
                ConfigError,
            >(o.deep_view()),
            Err(e) => resolve_field_spec(blocks.deep_view(), ty.deep_view()) == Err::<
                FieldOptionsView,
                ConfigError,
            >(e),
        },
{
    let mut acc = FieldArgs { default: None, optional: None, into: None, into_iter: None };
    if blocks.len() == 0 {
        return finish_field_options(acc, ty);
    }
    let block = &blocks[0];
    let ghost ms = block.deep_view().markers;
    let n = block.markers.len();
    proof {
        assert(ms.skip(0) =~= ms);
        assert(acc.deep_view() == empty_field_args());
    }
    let mut i: usize = 0;
    while i < n
        invariant
            n == block.markers.len(),
            ms == block.deep_view().markers,
            blocks.deep_view().len() == blocks@.len(),
            blocks@.len() > 0,
            ms == blocks.deep_view()[0].markers,
            i <= n,
            field_fold(empty_field_args(), ms, ty.deep_view()) == field_fold(
                acc.deep_view(),
                ms.skip(i as int),
                ty.deep_view(),
            ),
        decreases n - i,
    {
        proof {
            assert(ms.skip(i as int)[0] == ms[i as int]);
            assert(ms.skip(i as int).skip(1) =~= ms.skip(i as int + 1));
            assert(ms[i as int] == block.markers@[i as int].deep_view());
        }
        match apply_field_marker(acc, &block.markers[i], ty) {
            Ok(a) => {
                acc = a;
            },
            Err(e) => {
                proof {
                    assert(ms.skip(i as int).len() > 0);
                }
                return Err(e);
            },
        }
        i += 1;
    }
    proof {
        assert(ms.skip(n as int) =~= Seq::<MarkerView>::empty());
    }
    if n == 0 {
        return Err(ConfigError::EmptyFieldBlock);
    }
    if blocks.len() > 1 {
        return Err(ConfigError::MultipleFieldBlocks);
    }
    finish_field_options(acc, ty)
}

} // verus!
