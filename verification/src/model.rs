//! The input model: a type declaration as plain values.
//!
//! The host compiler's declaration parser supplies the declaration already
//! parsed; an adapter outside this crate turns that structure into the types
//! below. Markers keep the `key` / `key = value` / `key(...)` grammar with the
//! value classified purely lexically; field types keep exactly the structure
//! the resolution rules read (tuple emptiness, path segments, generic
//! arguments) plus their verbatim source text, which is threaded through to
//! the generated code unread.

use vstd::prelude::*;

verus! {

/// Whether the annotated declaration is a product type or a sum type.
#[derive(Clone, Copy, PartialEq, Eq, Structural, Debug)]
pub enum ItemKind {
    Product,
    Sum,
}

/// The syntactic category of a field list.
#[derive(Clone, Copy, PartialEq, Eq, Structural, Debug)]
pub enum ListKind {
    Unit,
    Unnamed,
    Named,
}

/// A caller-supplied expression, kept opaque: it is embedded verbatim in the
/// generated code and never interpreted, but the lexical class of the token
/// that carried it is preserved so it can be rendered back exactly.
#[derive(PartialEq, Eq, Debug)]
pub enum ExprText {
    BoolLit(bool),
    StrLit(String),
    Raw(String),
}

impl Clone for ExprText {
    /// A clone keeps the value.
    fn clone(&self) -> (r: Self)
        ensures
            r == *self,
    {
        match self {
            ExprText::BoolLit(b) => ExprText::BoolLit(*b),
            ExprText::StrLit(s) => ExprText::StrLit(s.clone()),
            ExprText::Raw(s) => ExprText::Raw(s.clone()),
        }
    }
}

pub enum ExprTextView {
    BoolLit(bool),
    StrLit(Seq<char>),
    Raw(Seq<char>),
}

impl DeepView for ExprText {
    type V = ExprTextView;

    open spec fn deep_view(&self) -> ExprTextView {
        match self {
            ExprText::BoolLit(b) => ExprTextView::BoolLit(*b),
            ExprText::StrLit(s) => ExprTextView::StrLit(s@),
            ExprText::Raw(s) => ExprTextView::Raw(s@),
        }
    }
}

/// The parenthesised form `key(...)`, classified lexically.
#[derive(Clone, PartialEq, Eq, Debug)]
pub enum GroupValue {
    /// `key()`
    Empty,
    /// `key(crate)`
    KwCrate,
    /// `key(super)`
    KwSuper,
    /// `key(self)`
    KwSelf,
    /// `key(in <path>)`, the path verbatim
    InPath(String),
    /// anything else between the parentheses, verbatim
    Other(String),
}

pub enum GroupValueView {
    Empty,
    KwCrate,
    KwSuper,
    KwSelf,
    InPath(Seq<char>),
    Other(Seq<char>),
}

impl DeepView for GroupValue {
    type V = GroupValueView;

    open spec fn deep_view(&self) -> GroupValueView {
        match self {
            GroupValue::Empty => GroupValueView::Empty,
            GroupValue::KwCrate => GroupValueView::KwCrate,
            GroupValue::KwSuper => GroupValueView::KwSuper,
            GroupValue::KwSelf => GroupValueView::KwSelf,
            GroupValue::InPath(s) => GroupValueView::InPath(s@),
            GroupValue::Other(s) => GroupValueView::Other(s@),
        }
    }
}

/// The form a marker key was given, classified lexically.
#[derive(Clone, PartialEq, Eq, Debug)]
pub enum MarkerValue {
    /// bare `key`
    Bare,
    /// `key(...)`
    Group(GroupValue),
    /// `key = <boolean literal>`
    EqBool(bool),
    /// `key = <string literal>`, the contents without the quotes
    EqStr(String),
    /// `key = <anything else>`, the tokens verbatim
    EqOther(String),
}

pub enum MarkerValueView {
    Bare,
    Group(GroupValueView),
    EqBool(bool),
    EqStr(Seq<char>),
    EqOther(Seq<char>),
}

impl DeepView for MarkerValue {
    type V = MarkerValueView;

    open spec fn deep_view(&self) -> MarkerValueView {
        match self {
            MarkerValue::Bare => MarkerValueView::Bare,
            MarkerValue::Group(g) => MarkerValueView::Group(g.deep_view()),
            MarkerValue::EqBool(b) => MarkerValueView::EqBool(*b),
            MarkerValue::EqStr(s) => MarkerValueView::EqStr(s@),
            MarkerValue::EqOther(s) => MarkerValueView::EqOther(s@),
        }
    }
}

/// One `key` / `key = value` / `key(...)` entry of a configuration block.
#[derive(Clone, PartialEq, Eq, Debug)]
pub struct Marker {
    pub key: String,
    pub value: MarkerValue,
}

pub struct MarkerView {
    pub key: Seq<char>,
    pub value: MarkerValueView,
}

impl DeepView for Marker {
    type V = MarkerView;

    open spec fn deep_view(&self) -> MarkerView {
        MarkerView { key: self.key@, value: self.value.deep_view() }
    }
}

/// One configuration block attached to a type or a field, in source order.
#[derive(Clone, PartialEq, Eq, Debug)]
pub struct MarkerBlock {
    pub markers: Vec<Marker>,
}

pub struct MarkerBlockView {
    pub markers: Seq<MarkerView>,
}

impl DeepView for MarkerBlock {
    type V = MarkerBlockView;

    open spec fn deep_view(&self) -> MarkerBlockView {
        MarkerBlockView { markers: self.markers.deep_view() }
    }
}

/// A generic argument of a path segment: a type argument carries its verbatim
/// text, anything else (a lifetime, a const argument, a binding) is opaque.
#[derive(Clone, PartialEq, Eq, Debug)]
pub enum GenericArg {
    TypeArg(String),
    OtherArg,
}

pub enum GenericArgView {
    TypeArg(Seq<char>),
    OtherArg,
}

impl DeepView for GenericArg {
    type V = GenericArgView;

    open spec fn deep_view(&self) -> GenericArgView {
        match self {
            GenericArg::TypeArg(s) => GenericArgView::TypeArg(s@),
            GenericArg::OtherArg => GenericArgView::OtherArg,
        }
    }
}

/// One segment of a path type; `args` is `None` when the segment carries no
/// angle-bracketed argument list.
#[derive(Clone, PartialEq, Eq, Debug)]
pub struct PathSegment {
    pub name: String,
    pub args: Option<Vec<GenericArg>>,
}

pub struct PathSegmentView {
    pub name: Seq<char>,
    pub args: Option<Seq<GenericArgView>>,
}

impl DeepView for PathSegment {
    type V = PathSegmentView;

    open spec fn deep_view(&self) -> PathSegmentView {
        PathSegmentView { name: self.name@, args: self.args.deep_view() }
    }
}

/// The structure of a field's declared type, as far as the rules read it.
#[derive(Clone, PartialEq, Eq, Debug)]
pub enum TypeKind {
    /// the zero-field tuple type
    EmptyTuple,
    /// a path type, its segments in order
    Path(Vec<PathSegment>),
    /// any other type shape
    Other,
}

pub enum TypeKindView {
    EmptyTuple,
    Path(Seq<PathSegmentView>),
    Other,
}

impl DeepView for TypeKind {
    type V = TypeKindView;

    open spec fn deep_view(&self) -> TypeKindView {
        match self {
            TypeKind::EmptyTuple => TypeKindView::EmptyTuple,
            TypeKind::Path(segs) => TypeKindView::Path(segs.deep_view()),
            TypeKind::Other => TypeKindView::Other,
        }
    }
}

/// A field's declared type: its inspected structure and its verbatim text.
#[derive(Clone, PartialEq, Eq, Debug)]
pub struct FieldType {
    pub kind: TypeKind,
    pub text: String,
}

pub struct FieldTypeView {
    pub kind: TypeKindView,
    pub text: Seq<char>,
}

impl DeepView for FieldType {
    type V = FieldTypeView;

    open spec fn deep_view(&self) -> FieldTypeView {
        FieldTypeView { kind: self.kind.deep_view(), text: self.text@ }
    }
}

/// One field of a product type or of a sum-type variant; `name` is `None`
/// for positional fields.
#[derive(Clone, PartialEq, Eq, Debug)]
pub struct FieldDecl {
    pub name: Option<String>,
    pub ty: FieldType,
    pub blocks: Vec<MarkerBlock>,
}

pub struct FieldDeclView {
    pub name: Option<Seq<char>>,
    pub ty: FieldTypeView,
    pub blocks: Seq<MarkerBlockView>,
}

impl DeepView for FieldDecl {
    type V = FieldDeclView;

    open spec fn deep_view(&self) -> FieldDeclView {
        FieldDeclView {
            name: self.name.deep_view(),
            ty: self.ty.deep_view(),
            blocks: self.blocks.deep_view(),
        }
    }
}

/// A field list together with its syntactic category.
#[derive(Clone, PartialEq, Eq, Debug)]
pub struct FieldList {
    pub kind: ListKind,
    pub fields: Vec<FieldDecl>,
}

pub struct FieldListView {
    pub kind: ListKind,
    pub fields: Seq<FieldDeclView>,
}

impl DeepView for FieldList {
    type V = FieldListView;

    open spec fn deep_view(&self) -> FieldListView {
        FieldListView { kind: self.kind, fields: self.fields.deep_view() }
    }
}

/// One variant of a sum type.
#[derive(Clone, PartialEq, Eq, Debug)]
pub struct VariantDecl {
    pub name: String,
    pub fields: FieldList,
}

pub struct VariantDeclView {
    pub name: Seq<char>,
    pub fields: FieldListView,
}

impl DeepView for VariantDecl {
    type V = VariantDeclView;

    open spec fn deep_view(&self) -> VariantDeclView {
        VariantDeclView { name: self.name@, fields: self.fields.deep_view() }
    }
}

/// The data part of the annotated declaration. `Other` stands for any
/// declaration kind this mechanism does not support.
#[derive(Clone, PartialEq, Eq, Debug)]
pub enum DataDecl {
    Product(FieldList),
    Sum(Vec<VariantDecl>),
    Other,
}

pub enum DataDeclView {
    Product(FieldListView),
    Sum(Seq<VariantDeclView>),
    Other,
}

impl DeepView for DataDecl {
    type V = DataDeclView;

    open spec fn deep_view(&self) -> DataDeclView {
        match self {
            DataDecl::Product(fl) => DataDeclView::Product(fl.deep_view()),
            DataDecl::Sum(vs) => DataDeclView::Sum(vs.deep_view()),
            DataDecl::Other => DataDeclView::Other,
        }
    }
}

} // verus!
