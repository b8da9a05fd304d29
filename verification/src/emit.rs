//! The constructor emitter: a construction plan together with the resolved
//! naming, visibility and constant safety becomes one [`ConstructorDef`],
//! the complete description of one generated function.
//!
//! The renderer outside this crate turns a [`ConstructorDef`] into source
//! tokens mechanically: the parameters in order; a body specialized per
//! shape (the no-argument constructor form for [`Shape::NoFields`], the
//! positional form for [`Shape::Positional`], named initializers for
//! [`Shape::Named`]), each slot filled from its value expression; a marking
//! that warns when the result is unused; and the constant marking when
//! constant safety is on. No decision is left to it.

use vstd::prelude::*;
use crate::main_options::{Visibility, VisibilityView};
use crate::plan::{ConstructionPlan, ConstructionPlanView};

verus! {

/// What the constructor produces: the annotated type itself, or one named
/// variant of it.
#[derive(Clone, PartialEq, Eq, Debug)]
pub enum ConstructTarget {
    Plain,
    Variant(String),
}

pub enum ConstructTargetView {
    Plain,
    Variant(Seq<char>),
}

impl DeepView for ConstructTarget {
    type V = ConstructTargetView;

    open spec fn deep_view(&self) -> ConstructTargetView {
        match self {
            ConstructTarget::Plain => ConstructTargetView::Plain,
            ConstructTarget::Variant(s) => ConstructTargetView::Variant(s@),
        }
    }
}

/// One generated constructor function, fully decided.
#[derive(Clone, PartialEq, Eq, Debug)]
pub struct ConstructorDef {
    pub name: String,
    pub visibility: Visibility,
    /// marked compile-time evaluable
    pub constant: bool,
    pub target: ConstructTarget,
    pub plan: ConstructionPlan,
}

pub struct ConstructorDefView {
    pub name: Seq<char>,
    pub visibility: VisibilityView,
    pub constant: bool,
    pub target: ConstructTargetView,
    pub plan: ConstructionPlanView,
}

impl DeepView for ConstructorDef {
    type V = ConstructorDefView;

    open spec fn deep_view(&self) -> ConstructorDefView {
        ConstructorDefView {
            name: self.name@,
            visibility: self.visibility.deep_view(),
            constant: self.constant,
            target: self.target.deep_view(),
            plan: self.plan.deep_view(),
        }
    }
}

/// The output unit of one derivation: every constructor generated for the
/// annotated type, in declaration order. A sum type with zero variants
/// yields an empty unit.
#[derive(Clone, PartialEq, Eq, Debug)]
pub struct GeneratedImpl {
    pub constructors: Vec<ConstructorDef>,
}

pub struct GeneratedImplView {
    pub constructors: Seq<ConstructorDefView>,
}

impl DeepView for GeneratedImpl {
    type V = GeneratedImplView;

    open spec fn deep_view(&self) -> GeneratedImplView {
        GeneratedImplView { constructors: self.constructors.deep_view() }
    }
}

/// The constructor a plan and the resolved options decide.
pub open spec fn mk_constructor(
    plan: ConstructionPlanView,
    visibility: VisibilityView,
    constant: bool,
    name: Seq<char>,
    target: ConstructTargetView,
) -> ConstructorDefView {
    ConstructorDefView { name, visibility, constant, target, plan }
}

/// Emit one constructor from its plan and the resolved options. By the time
/// this runs, all validation has succeeded; no error can arise here.
pub fn emit_constructor(
    plan: ConstructionPlan,
    visibility: Visibility,
    constant: bool,
    name: String,
    target: ConstructTarget,
) -> (c: ConstructorDef)
    ensures
        c.deep_view() == mk_constructor(
            plan.deep_view(),
            visibility.deep_view(),
            constant,
            name@,
            target.deep_view(),
        ),
{
    ConstructorDef { name, visibility, constant, target, plan }
}

/// The substitution an optional parameter's emitted match performs at run
/// time: the supplied value when present, the fallback when absent.
pub fn resolve_optional<T>(supplied: Option<T>, fallback: T) -> (r: T)
    ensures
        match supplied {
            Some(v) => r == v,
            None => r == fallback,
        },
{
    match supplied {
        Some(v) => v,
        None => fallback,
    }
}

} // verus!
