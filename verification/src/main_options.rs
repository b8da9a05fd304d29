//! Type-level option resolution: the configuration markers attached to the
//! whole declaration become a validated [`MainOptions`] value.
//!
//! The behaviour is pinned down by [`resolve_main_spec`]; the executable
//! [`resolve_main_options`] is proved to return exactly that value.

use vstd::prelude::*;
use vstd::string::StringExecFns;
use crate::errors::{ConfigError, MainKey};
use crate::model::{GroupValue, GroupValueView, ItemKind, Marker, MarkerBlock, MarkerBlockView, MarkerValue,
    MarkerValueView, MarkerView};
use crate::strutil::str_eq;

verus! {

/// The resolved visibility of the generated constructor.
#[derive(PartialEq, Eq, Debug)]
pub enum Visibility {
    Private,
    Public,
    Crate,
    Super,
    SelfScope,
    /// restricted to an explicit path, the path verbatim
    In(String),
}

impl Clone for Visibility {
    /// A clone keeps the value.
    fn clone(&self) -> (r: Self)
        ensures
            r == *self,
    {
        match self {
            Visibility::Private => Visibility::Private,
            Visibility::Public => Visibility::Public,
            Visibility::Crate => Visibility::Crate,
            Visibility::Super => Visibility::Super,
            Visibility::SelfScope => Visibility::SelfScope,
            Visibility::In(p) => Visibility::In(p.clone()),
        }
    }
}

pub enum VisibilityView {
    Private,
    Public,
    Crate,
    Super,
    SelfScope,
    In(Seq<char>),
}

impl DeepView for Visibility {
    type V = VisibilityView;

    open spec fn deep_view(&self) -> VisibilityView {
        match self {
            Visibility::Private => VisibilityView::Private,
            Visibility::Public => VisibilityView::Public,
            Visibility::Crate => VisibilityView::Crate,
            Visibility::Super => VisibilityView::Super,
            Visibility::SelfScope => VisibilityView::SelfScope,
            Visibility::In(p) => VisibilityView::In(p@),
        }
    }
}

/// Resolved type-scoped configuration, shared by every constructor the
/// declaration yields.
#[derive(Clone, PartialEq, Eq, Debug)]
pub struct MainOptions {
    pub visibility: Visibility,
    /// For a product type, the constructor's exact name. For a sum type, the
    /// prefix combined with each variant's case-converted name, or `None`
    /// when prefixing is suppressed.
    pub prefix: Option<String>,
    /// whether the constructors must be usable in constant-evaluable contexts
    pub constant: bool,
}

pub struct MainOptionsView {
    pub visibility: VisibilityView,
    pub prefix: Option<Seq<char>>,
    pub constant: bool,
}

impl DeepView for MainOptions {
    type V = MainOptionsView;

    open spec fn deep_view(&self) -> MainOptionsView {
        MainOptionsView {
            visibility: self.visibility.deep_view(),
            prefix: self.prefix.deep_view(),
            constant: self.constant,
        }
    }
}

/// The visibility marker's declared form, before defaulting.
#[derive(Clone, PartialEq, Eq, Debug)]
pub enum VisDecl {
    /// bare `pub`
    Bare,
    /// `pub = true` / `pub = false`
    Explicit(bool),
    Crate,
    Super,
    SelfScope,
    In(String),
}

pub enum VisDeclView {
    Bare,
    Explicit(bool),
    Crate,
    Super,
    SelfScope,
    In(Seq<char>),
}

impl DeepView for VisDecl {
    type V = VisDeclView;

    open spec fn deep_view(&self) -> VisDeclView {
        match self {
            VisDecl::Bare => VisDeclView::Bare,
            VisDecl::Explicit(b) => VisDeclView::Explicit(*b),
            VisDecl::Crate => VisDeclView::Crate,
            VisDecl::Super => VisDeclView::Super,
            VisDecl::SelfScope => VisDeclView::SelfScope,
            VisDecl::In(p) => VisDeclView::In(p@),
        }
    }
}

/// Accumulator of the type-level keys seen so far; `None` means not yet
/// declared.
pub struct MainArgs {
    pub vis: Option<VisDecl>,
    pub rename: Option<String>,
    pub no_prefix: Option<bool>,
    pub constant: Option<bool>,
}

pub struct MainArgsView {
    pub vis: Option<VisDeclView>,
    pub rename: Option<Seq<char>>,
    pub no_prefix: Option<bool>,
    pub constant: Option<bool>,
}

impl DeepView for MainArgs {
    type V = MainArgsView;

    open spec fn deep_view(&self) -> MainArgsView {
        MainArgsView {
            vis: self.vis.deep_view(),
            rename: self.rename.deep_view(),
            no_prefix: self.no_prefix,
            constant: self.constant,
        }
    }
}

/// Whether a string is a valid Rust identifier, as the identifier parser of
/// the host language decides it.
pub uninterp spec fn ident_ok(s: Seq<char>) -> bool;

/// Relies on syn's identifier parser (`syn::parse_str::<syn::Ident>`):
/// returns whether the string is exactly one valid Rust identifier, keywords
/// rejected. The result depends on the characters alone.
#[verifier::external_body]
fn valid_ident(s: &str) -> (r: bool)
    ensures
        r == ident_ok(s@),
{
    syn::parse_str::<syn::Ident>(s).is_ok()
}

pub open spec fn empty_main_args() -> MainArgsView {
    MainArgsView { vis: None, rename: None, no_prefix: None, constant: None }
}

/// Effect of one visibility marker on the accumulator.
pub open spec fn main_step_vis(acc: MainArgsView, v: MarkerValueView) -> Result<
    MainArgsView,
    ConfigError,
> {
    if acc.vis is Some {
        Err(ConfigError::DuplicateMainKey(MainKey::Visibility))
    } else {
        match v {
            MarkerValueView::Group(g) => match g {
                GroupValueView::Empty => Err(ConfigError::VisibilityScopeEmpty),
                GroupValueView::KwCrate => Ok(MainArgsView { vis: Some(VisDeclView::Crate), ..acc }),
                GroupValueView::KwSuper => Ok(MainArgsView { vis: Some(VisDeclView::Super), ..acc }),
                GroupValueView::KwSelf => Ok(
                    MainArgsView { vis: Some(VisDeclView::SelfScope), ..acc },
                ),
                GroupValueView::InPath(p) => Ok(
                    MainArgsView { vis: Some(VisDeclView::In(p)), ..acc },
                ),
                GroupValueView::Other(_) => Err(ConfigError::VisibilityScopeUnknown),
            },
            MarkerValueView::EqBool(b) => Ok(
                MainArgsView { vis: Some(VisDeclView::Explicit(b)), ..acc },
            ),
            MarkerValueView::Bare => Ok(MainArgsView { vis: Some(VisDeclView::Bare), ..acc }),
            _ => Err(ConfigError::VisibilityNeedsBool),
        }
    }
}

/// Effect of one rename marker on the accumulator.
pub open spec fn main_step_rename(acc: MainArgsView, v: MarkerValueView, kind: ItemKind) -> Result<
    MainArgsView,
    ConfigError,
> {
    if acc.rename is Some {
        Err(ConfigError::DuplicateMainKey(MainKey::Rename))
    } else {
        match v {
            MarkerValueView::EqStr(s) => if s.len() == 0 {
                if kind == ItemKind::Sum {
                    Err(ConfigError::RenameEmptySuggestNoPrefix)
                } else {
                    Err(ConfigError::RenameEmpty)
                }
            } else if !ident_ok(s) {
                Err(ConfigError::RenameNotIdentifier)
            } else {
                Ok(MainArgsView { rename: Some(s), ..acc })
            },
            MarkerValueView::EqBool(_) => Err(ConfigError::RenameNeedsString),
            MarkerValueView::EqOther(_) => Err(ConfigError::RenameNeedsString),
            _ => Err(ConfigError::RenameNeedsValue),
        }
    }
}

/// Effect of one prefix-suppression marker on the accumulator.
pub open spec fn main_step_no_prefix(
    acc: MainArgsView,
    v: MarkerValueView,
    kind: ItemKind,
) -> Result<MainArgsView, ConfigError> {
    if kind == ItemKind::Product {
        Err(ConfigError::NoPrefixOnProduct)
    } else if acc.no_prefix is Some {
        Err(ConfigError::DuplicateMainKey(MainKey::NoPrefix))
    } else {
        match v {
            MarkerValueView::Bare => Ok(MainArgsView { no_prefix: Some(true), ..acc }),
            MarkerValueView::EqBool(b) => Ok(MainArgsView { no_prefix: Some(b), ..acc }),
            _ => Err(ConfigError::NoPrefixNeedsBool),
        }
    }
}

/// Effect of one constant-safety marker on the accumulator.
pub open spec fn main_step_constant(acc: MainArgsView, v: MarkerValueView) -> Result<
    MainArgsView,
    ConfigError,
> {
    if acc.constant is Some {
        Err(ConfigError::DuplicateMainKey(MainKey::ConstantSafe))
    } else {
        match v {
            MarkerValueView::Bare => Ok(MainArgsView { constant: Some(true), ..acc }),
            MarkerValueView::EqBool(b) => Ok(MainArgsView { constant: Some(b), ..acc }),
            _ => Err(ConfigError::ConstantSafeNeedsBool),
        }
    }
}

/// Effect of one type-level marker on the accumulator: dispatch over the
/// recognized key space.
pub open spec fn main_step(acc: MainArgsView, m: MarkerView, kind: ItemKind) -> Result<
    MainArgsView,
    ConfigError,
> {
    if m.key == "public"@ {
        Err(ConfigError::MainKeyHintVisibility)
    } else if m.key == "constant"@ {
        Err(ConfigError::MainKeyHintConstantSafe)
    } else if m.key == "pub"@ {
        main_step_vis(acc, m.value)
    } else if m.key == "rename"@ {
        main_step_rename(acc, m.value, kind)
    } else if m.key == "no_prefix"@ {
        main_step_no_prefix(acc, m.value, kind)
    } else if m.key == "const"@ {
        main_step_constant(acc, m.value)
    } else {
        Err(ConfigError::UnknownMainKey(kind))
    }
}

/// Left fold of [`main_step`] over a marker sequence; the first error wins.
pub open spec fn main_fold(acc: MainArgsView, ms: Seq<MarkerView>, kind: ItemKind) -> Result<
    MainArgsView,
    ConfigError,
>
    decreases ms.len(),
{
    if ms.len() == 0 {
        Ok(acc)
    } else {
        match main_step(acc, ms[0], kind) {
            Err(e) => Err(e),
            Ok(a) => main_fold(a, ms.skip(1), kind),
        }
    }
}

/// The type-level combination rule: a rename cannot be combined with
/// effective prefix suppression.
pub open spec fn main_combination_error(acc: MainArgsView) -> Option<ConfigError> {
    if acc.rename is Some && acc.no_prefix == Some(true) {
        Some(ConfigError::RenameWithNoPrefix)
    } else {
        None
    }
}

/// Defaulting of the declared arguments into resolved options: visibility
/// defaults to private, the constructor name to `new`, constant safety to
/// off.
pub open spec fn finish_main(acc: MainArgsView) -> MainOptionsView {
    MainOptionsView {
        visibility: match acc.vis {
            None => VisibilityView::Private,
            Some(VisDeclView::Bare) => VisibilityView::Public,
            Some(VisDeclView::Explicit(b)) => if b {
                VisibilityView::Public
            } else {
                VisibilityView::Private
            },
            Some(VisDeclView::Crate) => VisibilityView::Crate,
            Some(VisDeclView::Super) => VisibilityView::Super,
            Some(VisDeclView::SelfScope) => VisibilityView::SelfScope,
            Some(VisDeclView::In(p)) => VisibilityView::In(p),
        },
        prefix: if acc.no_prefix == Some(true) {
            None
        } else {
            match acc.rename {
                Some(r) => Some(r),
                None => Some("new"@),
            }
        },
        constant: acc.constant == Some(true),
    }
}

/// Full type-level resolution over the declaration's configuration blocks:
/// parse the first block, reject an argument-less block, apply the
/// combination rule, reject a second block, then apply the defaults.
pub open spec fn resolve_main_spec(blocks: Seq<MarkerBlockView>, kind: ItemKind) -> Result<
    MainOptionsView,
    ConfigError,
> {
    if blocks.len() == 0 {
        Ok(finish_main(empty_main_args()))
    } else {
        match main_fold(empty_main_args(), blocks[0].markers, kind) {
            Err(e) => Err(e),
            Ok(acc) => if blocks[0].markers.len() == 0 {
                Err(ConfigError::EmptyMainBlock)
            } else if main_combination_error(acc) is Some {
                Err(main_combination_error(acc)->Some_0)
            } else if blocks.len() > 1 {
                Err(ConfigError::MultipleMainBlocks)
            } else {
                Ok(finish_main(acc))
            },
        }
    }
}

/// Apply one type-level marker to the accumulator.
fn apply_main_marker(acc: MainArgs, m: &Marker, kind: ItemKind) -> (r: Result<
    MainArgs,
    ConfigError,
>)
    ensures
        match r {
            Ok(a) => main_step(acc.deep_view(), m.deep_view(), kind) == Ok::<
                MainArgsView,
                ConfigError,
            >(a.deep_view()),
            Err(e) => main_step(acc.deep_view(), m.deep_view(), kind) == Err::<
                MainArgsView,
                ConfigError,
            >(e),
        },
{
    let key = m.key.as_str();
    if str_eq(key, "public") {
        Err(ConfigError::MainKeyHintVisibility)
    } else if str_eq(key, "constant") {
        Err(ConfigError::MainKeyHintConstantSafe)
    } else if str_eq(key, "pub") {
        if acc.vis.is_some() {
            Err(ConfigError::DuplicateMainKey(MainKey::Visibility))
        } else {
            match &m.value {
                MarkerValue::Group(g) => match g {
                    GroupValue::Empty => Err(ConfigError::VisibilityScopeEmpty),
                    GroupValue::KwCrate => Ok(
                        MainArgs { vis: Some(VisDecl::Crate), ..acc },
                    ),
                    GroupValue::KwSuper => Ok(
                        MainArgs { vis: Some(VisDecl::Super), ..acc },
                    ),
                    GroupValue::KwSelf => Ok(
                        MainArgs { vis: Some(VisDecl::SelfScope), ..acc },
                    ),
                    GroupValue::InPath(p) => Ok(
                        MainArgs { vis: Some(VisDecl::In(p.clone())), ..acc },
                    ),
                    GroupValue::Other(_) => Err(ConfigError::VisibilityScopeUnknown),
                },
                MarkerValue::EqBool(b) => Ok(MainArgs { vis: Some(VisDecl::Explicit(*b)), ..acc }),
                MarkerValue::Bare => Ok(MainArgs { vis: Some(VisDecl::Bare), ..acc }),
                _ => Err(ConfigError::VisibilityNeedsBool),
            }
        }
    } else if str_eq(key, "rename") {
        if acc.rename.is_some() {
            Err(ConfigError::DuplicateMainKey(MainKey::Rename))
        } else {
            match &m.value {
                MarkerValue::EqStr(s) => if s.as_str().is_empty() {
                    if kind == ItemKind::Sum {
                        Err(ConfigError::RenameEmptySuggestNoPrefix)
                    } else {
                        Err(ConfigError::RenameEmpty)
                    }
                } else if !valid_ident(s.as_str()) {
                    Err(ConfigError::RenameNotIdentifier)
                } else {
                    Ok(MainArgs { rename: Some(s.clone()), ..acc })
                },
                MarkerValue::EqBool(_) => Err(ConfigError::RenameNeedsString),
                MarkerValue::EqOther(_) => Err(ConfigError::RenameNeedsString),
                _ => Err(ConfigError::RenameNeedsValue),
            }
        }
    } else if str_eq(key, "no_prefix") {
        if kind == ItemKind::Product {
            Err(ConfigError::NoPrefixOnProduct)
        } else if acc.no_prefix.is_some() {
            Err(ConfigError::DuplicateMainKey(MainKey::NoPrefix))
        } else {
            match &m.value {
                MarkerValue::Bare => Ok(MainArgs { no_prefix: Some(true), ..acc }),
                MarkerValue::EqBool(b) => Ok(MainArgs { no_prefix: Some(*b), ..acc }),
                _ => Err(ConfigError::NoPrefixNeedsBool),
            }
        }
    } else if str_eq(key, "const") {
        if acc.constant.is_some() {
            Err(ConfigError::DuplicateMainKey(MainKey::ConstantSafe))
        } else {
            match &m.value {
                MarkerValue::Bare => Ok(MainArgs { constant: Some(true), ..acc }),
                MarkerValue::EqBool(b) => Ok(MainArgs { constant: Some(*b), ..acc }),
                _ => Err(ConfigError::ConstantSafeNeedsBool),
            }
        }
    } else {
        Err(ConfigError::UnknownMainKey(kind))
    }
}

/// Apply the documented defaults to the declared arguments.
fn finish_main_options(acc: MainArgs) -> (o: MainOptions)
    ensures
        o.deep_view() == finish_main(acc.deep_view()),
{
    let visibility = match acc.vis {
        None => Visibility::Private,
        Some(VisDecl::Bare) => Visibility::Public,
        Some(VisDecl::Explicit(b)) => if b {
            Visibility::Public
        } else {
            Visibility::Private
        },
        Some(VisDecl::Crate) => Visibility::Crate,
        Some(VisDecl::Super) => Visibility::Super,
        Some(VisDecl::SelfScope) => Visibility::SelfScope,
        Some(VisDecl::In(p)) => Visibility::In(p),
    };
    let prefix = if acc.no_prefix == Some(true) {
        None
    } else {
        match acc.rename {
            Some(r) => Some(r),
            None => Some(String::from_str("new")),
        }
    };
    MainOptions { visibility, prefix, constant: acc.constant == Some(true) }
}

/// Resolve the type-level configuration blocks of a declaration into
/// [`MainOptions`], or the first configuration error.
pub fn resolve_main_options(blocks: &Vec<MarkerBlock>, kind: ItemKind) -> (r: Result<
    MainOptions,
    ConfigError,
>)
    ensures
        match r {
            Ok(o) => resolve_main_spec(blocks.deep_view(), kind) == Ok::<
                MainOptionsView,
                ConfigError,
            >(o.deep_view()),
            Err(e) => resolve_main_spec(blocks.deep_view(), kind) == Err::<
                MainOptionsView,
                ConfigError,
            >(e),
        },
{
    let mut acc = MainArgs { vis: None, rename: None, no_prefix: None, constant: None };
    if blocks.len() == 0 {
        return Ok(finish_main_options(acc));
    }
    let block = &blocks[0];
    let ghost ms = block.deep_view().markers;
    let n = block.markers.len();
    proof {
        assert(blocks.deep_view().len() == blocks@.len());
        assert(blocks.deep_view()[0] == blocks@[0].deep_view());
        assert(ms.skip(0) =~= ms);
        assert(acc.deep_view() == empty_main_args());
    }
    let mut i: usize = 0;
    while i < n
        invariant
            n == block.markers.len(),
            ms == block.deep_view().markers,
            blocks.deep_view().len() == blocks@.len(),
            blocks@.len() > 0,
            ms == blocks.deep_view()[0].markers,
            i <= n,
            main_fold(empty_main_args(), ms, kind) == main_fold(
                acc.deep_view(),
                ms.skip(i as int),
                kind,
            ),
        decreases n - i,
    {
        proof {
            assert(ms.skip(i as int)[0] == ms[i as int]);
            assert(ms.skip(i as int).skip(1) =~= ms.skip(i as int + 1));
            assert(ms[i as int] == block.markers@[i as int].deep_view());
        }
        match apply_main_marker(acc, &block.markers[i], kind) {
            Ok(a) => {
                acc = a;
            },
            Err(e) => {
                proof {
                    assert(ms.skip(i as int).len() > 0);
                    assert(main_fold(acc.deep_view(), ms.skip(i as int), kind) == Err::<
                        MainArgsView,
                        ConfigError,
                    >(e));
                }
                return Err(e);
            },
        }
        i += 1;
    }
    proof {
        assert(ms.skip(n as int) =~= Seq::<MarkerView>::empty());
    }
    if n == 0 {
        return Err(ConfigError::EmptyMainBlock);
    }
    if acc.rename.is_some() && acc.no_prefix == Some(true) {
        return Err(ConfigError::RenameWithNoPrefix);
    }
    if blocks.len() > 1 {
        return Err(ConfigError::MultipleMainBlocks);
    }
    Ok(finish_main_options(acc))
}

} // verus!
