//! The driving control flow of one derivation: resolve the type-level
//! options once, then, for a product type, build one plan and emit one
//! constructor; for a sum type, build one plan and emit one constructor per
//! variant, sharing the type-level options. A declaration kind that is
//! neither yields the structural error.
//!
//! The behaviour is pinned down by [`derive_spec`]; the executable
//! [`derive_constructors`] is proved to return exactly that value.

use vstd::prelude::*;
use vstd::string::StringExecFns;
use crate::emit::{ConstructTarget, ConstructTargetView, ConstructorDef, ConstructorDefView,
    GeneratedImpl, GeneratedImplView, emit_constructor, mk_constructor};
use crate::errors::{ConfigError, DeriveError, FieldError};
use crate::field_options::{FieldOptions, FieldOptionsView, resolve_field_options,
    resolve_field_spec};
use crate::main_options::{MainOptions, MainOptionsView, resolve_main_options, resolve_main_spec};
use crate::model::{DataDecl, DataDeclView, FieldDeclView, FieldList, FieldListView, ItemKind,
    MarkerBlock, MarkerBlockView, VariantDecl, VariantDeclView};
use crate::plan::{build_plan, build_plan_spec};

verus! {

/// The case conversion used to name per-variant constructors, as the
/// conversion utility defines it.
pub uninterp spec fn snake_of(s: Seq<char>) -> Seq<char>;

/// Relies on heck's `ToSnakeCase` for `str`: lowercase with underscores at
/// word boundaries. The result depends on the characters alone.
#[verifier::external_body]
fn to_snake_case(s: &str) -> (r: String)
    ensures
        r@ == snake_of(s@),
{
    heck::ToSnakeCase::to_snake_case(s)
}

/// The product constructor's name: the resolved name or prefix.
pub open spec fn product_ctor_name(prefix: Option<Seq<char>>) -> Seq<char> {
    match prefix {
        Some(p) => p,
        None => "new"@,
    }
}

/// A variant constructor's name: the case-converted variant name, prefixed
/// unless prefixing is suppressed.
pub open spec fn variant_ctor_name(prefix: Option<Seq<char>>, variant: Seq<char>) -> Seq<char> {
    match prefix {
        Some(p) => p + "_"@ + snake_of(variant),
        None => snake_of(variant),
    }
}

fn make_product_ctor_name(prefix: &Option<String>) -> (r: String)
    ensures
        r@ == product_ctor_name(prefix.deep_view()),
{
    match prefix {
        Some(p) => p.clone(),
        None => String::from_str("new"),
    }
}

fn make_variant_ctor_name(prefix: &Option<String>, variant: &String) -> (r: String)
    ensures
        r@ == variant_ctor_name(prefix.deep_view(), variant@),
{
    let snake = to_snake_case(variant.as_str());
    match prefix {
        Some(p) => {
            let mut s = p.clone();
            s.append("_");
            s.append(snake.as_str());
            s
        },
        None => snake,
    }
}

/// Resolution of every field of one list, left to right; the first failing
/// field decides the error.
pub open spec fn opts_upto(fields: Seq<FieldDeclView>, n: int) -> Result<
    Seq<FieldOptionsView>,
    FieldError,
>
    decreases n,
{
    if n <= 0 {
        Ok(Seq::empty())
    } else {
        match opts_upto(fields, n - 1) {
            Err(e) => Err(e),
            Ok(pre) => match resolve_field_spec(fields[n - 1].blocks, fields[n - 1].ty) {
                Err(e) => Err(FieldError { field: (n - 1) as usize, error: e }),
                Ok(o) => Ok(pre.push(o)),
            },
        }
    }
}

/// Resolution of a whole field list.
pub open spec fn resolve_fields_spec(fields: Seq<FieldDeclView>) -> Result<
    Seq<FieldOptionsView>,
    FieldError,
> {
    opts_upto(fields, fields.len() as int)
}

proof fn lemma_opts_upto_err(fields: Seq<FieldDeclView>, j: int, k: int)
    requires
        opts_upto(fields, j) is Err,
        j <= k,
    ensures
        opts_upto(fields, k) == opts_upto(fields, j),
    decreases k - j,
{
    if j < k {
        lemma_opts_upto_err(fields, j, k - 1);
    }
}

/// Resolve the options of every field of one list, or report the first
/// failing field.
pub fn resolve_field_list(fields: &FieldList) -> (r: Result<Vec<FieldOptions>, FieldError>)
    ensures
        match r {
            Ok(v) => resolve_fields_spec(fields.fields.deep_view()) == Ok::<
                Seq<FieldOptionsView>,
                FieldError,
            >(v.deep_view()) && v@.len() == fields.fields@.len(),
            Err(e) => resolve_fields_spec(fields.fields.deep_view()) == Err::<
                Seq<FieldOptionsView>,
                FieldError,
            >(e),
        },
{
    let ghost fv = fields.fields.deep_view();
    let n = fields.fields.len();
    let mut out: Vec<FieldOptions> = Vec::new();
    proof {
        assert(out.deep_view() =~= Seq::<FieldOptionsView>::empty());
    }
    let mut i: usize = 0;
    while i < n
        invariant
            n == fields.fields@.len(),
            fv == fields.fields.deep_view(),
            i <= n,
            out@.len() == i,
            opts_upto(fv, i as int) == Ok::<Seq<FieldOptionsView>, FieldError>(out.deep_view()),
        decreases n - i,
    {
        proof {
            assert(fv.len() == fields.fields@.len());
            assert(fv[i as int] == fields.fields@[i as int].deep_view());
        }
        let f = &fields.fields[i];
        match resolve_field_options(&f.blocks, &f.ty) {
            Ok(o) => {
                let ghost prev = out.deep_view();
                let ghost odv = o.deep_view();
                out.push(o);
                proof {
                    assert(out.deep_view() =~= prev.push(odv));
                }
            },
            Err(e) => {
                proof {
                    lemma_opts_upto_err(fv, i as int + 1, fv.len() as int);
                }
                return Err(FieldError { field: i, error: e });
            },
        }
        i += 1;
    }
    proof {
        assert(fv.len() == n);
    }
    Ok(out)
}

/// One product derivation: type options, field options, plan, then exactly
/// one constructor named by the resolved name and producing the type
/// itself.
pub open spec fn derive_struct_spec(blocks: Seq<MarkerBlockView>, fields: FieldListView) -> Result<
    GeneratedImplView,
    DeriveError,
> {
    match resolve_main_spec(blocks, ItemKind::Product) {
        Err(e) => Err(DeriveError { variant: None, field: None, error: e }),
        Ok(mo) => match resolve_fields_spec(fields.fields) {
            Err(fe) => Err(DeriveError { variant: None, field: Some(fe.field), error: fe.error }),
            Ok(opts) => match build_plan_spec(fields.fields, opts, fields.kind, mo.constant) {
                Err(fe) => Err(
                    DeriveError { variant: None, field: Some(fe.field), error: fe.error },
                ),
                Ok(plan) => Ok(
                    GeneratedImplView {
                        constructors: seq![
                            mk_constructor(
                                plan,
                                mo.visibility,
                                mo.constant,
                                product_ctor_name(mo.prefix),
                                ConstructTargetView::Plain,
                            ),
                        ],
                    },
                ),
            },
        },
    }
}

/// Derive the constructor of a product type.
pub fn derive_for_struct(blocks: &Vec<MarkerBlock>, fields: &FieldList) -> (r: Result<
    GeneratedImpl,
    DeriveError,
>)
    ensures
        match r {
            Ok(g) => derive_struct_spec(blocks.deep_view(), fields.deep_view()) == Ok::<
                GeneratedImplView,
                DeriveError,
            >(g.deep_view()),
            Err(e) => derive_struct_spec(blocks.deep_view(), fields.deep_view()) == Err::<
                GeneratedImplView,
                DeriveError,
            >(e),
        },
{
    let mo = match resolve_main_options(blocks, ItemKind::Product) {
        Ok(o) => o,
        Err(e) => {
            return Err(DeriveError { variant: None, field: None, error: e });
        },
    };
    let ghost mov = mo.deep_view();
    let opts = match resolve_field_list(fields) {
        Ok(v) => v,
        Err(fe) => {
            return Err(DeriveError { variant: None, field: Some(fe.field), error: fe.error });
        },
    };
    let plan = match build_plan(fields, &opts, mo.constant) {
        Ok(p) => p,
        Err(fe) => {
            return Err(DeriveError { variant: None, field: Some(fe.field), error: fe.error });
        },
    };
    let name = make_product_ctor_name(&mo.prefix);
    let ctor = emit_constructor(plan, mo.visibility, mo.constant, name, ConstructTarget::Plain);
    let ghost cv = ctor.deep_view();
    let mut constructors: Vec<ConstructorDef> = Vec::new();
    constructors.push(ctor);
    proof {
        assert(constructors.deep_view() =~= seq![cv]);
    }
    Ok(GeneratedImpl { constructors })
}

/// One variant's derivation under the shared type-level options: field
/// options, plan, then one constructor named for the variant and producing
/// that variant.
pub open spec fn variant_ctor_spec(v: VariantDeclView, mo: MainOptionsView, j: int) -> Result<
    ConstructorDefView,
    DeriveError,
> {
    match resolve_fields_spec(v.fields.fields) {
        Err(fe) => Err(
            DeriveError { variant: Some(j as usize), field: Some(fe.field), error: fe.error },
        ),
        Ok(opts) => match build_plan_spec(v.fields.fields, opts, v.fields.kind, mo.constant) {
            Err(fe) => Err(
                DeriveError { variant: Some(j as usize), field: Some(fe.field), error: fe.error },
            ),
            Ok(plan) => Ok(
                mk_constructor(
                    plan,
                    mo.visibility,
                    mo.constant,
                    variant_ctor_name(mo.prefix, v.name),
                    ConstructTargetView::Variant(v.name),
                ),
            ),
        },
    }
}

/// The constructors of the first `n` variants, left to right; the first
/// failing variant decides the error.
pub open spec fn ctors_upto(variants: Seq<VariantDeclView>, mo: MainOptionsView, n: int) -> Result<
    Seq<ConstructorDefView>,
    DeriveError,
>
    decreases n,
{
    if n <= 0 {
        Ok(Seq::empty())
    } else {
        match ctors_upto(variants, mo, n - 1) {
            Err(e) => Err(e),
            Ok(pre) => match variant_ctor_spec(variants[n - 1], mo, n - 1) {
                Err(e) => Err(e),
                Ok(c) => Ok(pre.push(c)),
            },
        }
    }
}

proof fn lemma_ctors_upto_err(variants: Seq<VariantDeclView>, mo: MainOptionsView, j: int, k: int)
    requires
        ctors_upto(variants, mo, j) is Err,
        j <= k,
    ensures
        ctors_upto(variants, mo, k) == ctors_upto(variants, mo, j),
    decreases k - j,
{
    if j < k {
        lemma_ctors_upto_err(variants, mo, j, k - 1);
    }
}

/// One sum derivation: type options once, then one constructor per variant;
/// zero variants yield an empty output unit.
pub open spec fn derive_enum_spec(
    blocks: Seq<MarkerBlockView>,
    variants: Seq<VariantDeclView>,
) -> Result<GeneratedImplView, DeriveError> {
    match resolve_main_spec(blocks, ItemKind::Sum) {
        Err(e) => Err(DeriveError { variant: None, field: None, error: e }),
        Ok(mo) => match ctors_upto(variants, mo, variants.len() as int) {
            Err(e) => Err(e),
            Ok(cs) => Ok(GeneratedImplView { constructors: cs }),
        },
    }
}

fn build_variant_ctor(v: &VariantDecl, mo: &MainOptions, j: usize) -> (r: Result<
    ConstructorDef,
    DeriveError,
>)
    ensures
        match r {
            Ok(c) => variant_ctor_spec(v.deep_view(), mo.deep_view(), j as int) == Ok::<
                ConstructorDefView,
                DeriveError,
            >(c.deep_view()),
            Err(e) => variant_ctor_spec(v.deep_view(), mo.deep_view(), j as int) == Err::<
                ConstructorDefView,
                DeriveError,
            >(e),
        },
{
    let opts = match resolve_field_list(&v.fields) {
        Ok(o) => o,
        Err(fe) => {
            return Err(DeriveError { variant: Some(j), field: Some(fe.field), error: fe.error });
        },
    };
    let plan = match build_plan(&v.fields, &opts, mo.constant) {
        Ok(p) => p,
        Err(fe) => {
            return Err(DeriveError { variant: Some(j), field: Some(fe.field), error: fe.error });
        },
    };
    let name = make_variant_ctor_name(&mo.prefix, &v.name);
    Ok(
        emit_constructor(
            plan,
            mo.visibility.clone(),
            mo.constant,
            name,
            ConstructTarget::Variant(v.name.clone()),
        ),
    )
}

/// Derive the constructors of a sum type, one per variant.
pub fn derive_for_enum(blocks: &Vec<MarkerBlock>, variants: &Vec<VariantDecl>) -> (r: Result<
    GeneratedImpl,
    DeriveError,
>)
    ensures
        match r {
            Ok(g) => derive_enum_spec(blocks.deep_view(), variants.deep_view()) == Ok::<
                GeneratedImplView,
                DeriveError,
            >(g.deep_view()),
            Err(e) => derive_enum_spec(blocks.deep_view(), variants.deep_view()) == Err::<
                GeneratedImplView,
                DeriveError,
            >(e),
        },
{
    let mo = match resolve_main_options(blocks, ItemKind::Sum) {
        Ok(o) => o,
        Err(e) => {
            return Err(DeriveError { variant: None, field: None, error: e });
        },
    };
    let ghost mov = mo.deep_view();
    let ghost vv = variants.deep_view();
    let n = variants.len();
    let mut constructors: Vec<ConstructorDef> = Vec::new();
    proof {
        assert(constructors.deep_view() =~= Seq::<ConstructorDefView>::empty());
    }
    let mut j: usize = 0;
    while j < n
        invariant
            n == variants@.len(),
            vv == variants.deep_view(),
            mov == mo.deep_view(),
            resolve_main_spec(blocks.deep_view(), ItemKind::Sum) == Ok::<
                MainOptionsView,
                ConfigError,
            >(mov),
            j <= n,
            ctors_upto(vv, mov, j as int) == Ok::<Seq<ConstructorDefView>, DeriveError>(
                constructors.deep_view(),
            ),
        decreases n - j,
    {
        proof {
            assert(vv.len() == variants@.len());
            assert(vv[j as int] == variants@[j as int].deep_view());
        }
        match build_variant_ctor(&variants[j], &mo, j) {
            Ok(c) => {
                let ghost prev = constructors.deep_view();
                let ghost cv = c.deep_view();
                constructors.push(c);
                proof {
                    assert(constructors.deep_view() =~= prev.push(cv));
                }
            },
            Err(e) => {
                proof {
                    lemma_ctors_upto_err(vv, mov, j as int + 1, vv.len() as int);
                }
                return Err(e);
            },
        }
        j += 1;
    }
    proof {
        assert(vv.len() == n);
    }
    Ok(GeneratedImpl { constructors })
}

/// One whole derivation, dispatched on the declaration kind.
pub open spec fn derive_spec(blocks: Seq<MarkerBlockView>, data: DataDeclView) -> Result<
    GeneratedImplView,
    DeriveError,
> {
    match data {
        DataDeclView::Product(fl) => derive_struct_spec(blocks, fl),
        DataDeclView::Sum(vs) => derive_enum_spec(blocks, vs),
        DataDeclView::Other => Err(
            DeriveError { variant: None, field: None, error: ConfigError::UnsupportedDecl },
        ),
    }
}

/// Derive every constructor of one annotated declaration, or the single
/// diagnostic that rejects it. Error and output are mutually exclusive: a
/// failed derivation contributes no generated code.
pub fn derive_constructors(blocks: &Vec<MarkerBlock>, data: &DataDecl) -> (r: Result<
    GeneratedImpl,
    DeriveError,
>)
    ensures
        match r {
            Ok(g) => derive_spec(blocks.deep_view(), data.deep_view()) == Ok::<
                GeneratedImplView,
                DeriveError,
            >(g.deep_view()),
            Err(e) => derive_spec(blocks.deep_view(), data.deep_view()) == Err::<
                GeneratedImplView,
                DeriveError,
            >(e),
        },
{
    match data {
        DataDecl::Product(fl) => derive_for_struct(blocks, fl),
        DataDecl::Sum(vs) => derive_for_enum(blocks, vs),
        DataDecl::Other => Err(
            DeriveError { variant: None, field: None, error: ConfigError::UnsupportedDecl },
        ),
    }
}

/// Law: a successful product derivation yields exactly one constructor,
/// named by the resolved constructor name, producing the type itself, with
/// the resolved visibility and constant safety.
pub proof fn lemma_one_constructor_per_product(blocks: Seq<MarkerBlockView>, fields: FieldListView)
    requires
        derive_struct_spec(blocks, fields) is Ok,
    ensures
        resolve_main_spec(blocks, ItemKind::Product) is Ok,
        derive_struct_spec(blocks, fields)->Ok_0.constructors.len() == 1,
        derive_struct_spec(blocks, fields)->Ok_0.constructors[0].target
            == ConstructTargetView::Plain,
        derive_struct_spec(blocks, fields)->Ok_0.constructors[0].name == product_ctor_name(
            resolve_main_spec(blocks, ItemKind::Product)->Ok_0.prefix,
        ),
        derive_struct_spec(blocks, fields)->Ok_0.constructors[0].visibility == resolve_main_spec(
            blocks,
            ItemKind::Product,
        )->Ok_0.visibility,
        derive_struct_spec(blocks, fields)->Ok_0.constructors[0].constant == resolve_main_spec(
            blocks,
            ItemKind::Product,
        )->Ok_0.constant,
{
}

proof fn lemma_ctors_upto_ok(variants: Seq<VariantDeclView>, mo: MainOptionsView, n: int)
    requires
        0 <= n,
        ctors_upto(variants, mo, n) is Ok,
    ensures
        ctors_upto(variants, mo, n)->Ok_0.len() == n,
        forall|i: int|
            0 <= i < n ==> (#[trigger] variant_ctor_spec(variants[i], mo, i)) is Ok && ctors_upto(
                variants,
                mo,
                n,
            )->Ok_0[i] == variant_ctor_spec(variants[i], mo, i)->Ok_0,
    decreases n,
{
    if n > 0 {
        lemma_ctors_upto_ok(variants, mo, n - 1);
        let pre = ctors_upto(variants, mo, n - 1)->Ok_0;
        let c = variant_ctor_spec(variants[n - 1], mo, n - 1)->Ok_0;
        assert(ctors_upto(variants, mo, n)->Ok_0 == pre.push(c));
        assert forall|i: int| 0 <= i < n implies (#[trigger] variant_ctor_spec(
            variants[i],
            mo,
            i,
        )) is Ok && ctors_upto(variants, mo, n)->Ok_0[i] == variant_ctor_spec(
            variants[i],
            mo,
            i,
        )->Ok_0 by {
            if i < n - 1 {
                assert(pre.push(c)[i] == pre[i]);
            } else {
                assert(pre.push(c)[i] == c);
            }
        }
    }
}

/// Law: a successful sum derivation yields exactly one constructor per
/// variant, in variant order, each producing its own variant and named for
/// it, all sharing the single resolved visibility and constant safety.
pub proof fn lemma_one_constructor_per_variant(
    blocks: Seq<MarkerBlockView>,
    variants: Seq<VariantDeclView>,
)
    requires
        derive_enum_spec(blocks, variants) is Ok,
    ensures
        resolve_main_spec(blocks, ItemKind::Sum) is Ok,
        derive_enum_spec(blocks, variants)->Ok_0.constructors.len() == variants.len(),
        forall|i: int|
            0 <= i < variants.len() ==> derive_enum_spec(blocks, variants)->Ok_0.constructors[i]
                == variant_ctor_spec(
                variants[i],
                resolve_main_spec(blocks, ItemKind::Sum)->Ok_0,
                i,
            )->Ok_0,
        forall|i: int|
            0 <= i < variants.len() ==> derive_enum_spec(
                blocks,
                variants,
            )->Ok_0.constructors[i].target == ConstructTargetView::Variant(variants[i].name),
        forall|i: int|
            0 <= i < variants.len() ==> derive_enum_spec(
                blocks,
                variants,
            )->Ok_0.constructors[i].name == variant_ctor_name(
                resolve_main_spec(blocks, ItemKind::Sum)->Ok_0.prefix,
                variants[i].name,
            ),
        forall|i: int|
            0 <= i < variants.len() ==> derive_enum_spec(
                blocks,
                variants,
            )->Ok_0.constructors[i].visibility == resolve_main_spec(
                blocks,
                ItemKind::Sum,
            )->Ok_0.visibility && derive_enum_spec(blocks, variants)->Ok_0.constructors[i].constant
                == resolve_main_spec(blocks, ItemKind::Sum)->Ok_0.constant,
{
    let mo = resolve_main_spec(blocks, ItemKind::Sum)->Ok_0;
    lemma_ctors_upto_ok(variants, mo, variants.len() as int);
    assert forall|i: int| 0 <= i < variants.len() implies {
        let c = #[trigger] derive_enum_spec(blocks, variants)->Ok_0.constructors[i];
        &&& c.target == ConstructTargetView::Variant(variants[i].name)
        &&& c.name == variant_ctor_name(mo.prefix, variants[i].name)
        &&& c.visibility == mo.visibility
        &&& c.constant == mo.constant
    } by {
        assert(variant_ctor_spec(variants[i], mo, i) is Ok);
        assert(derive_enum_spec(blocks, variants)->Ok_0.constructors[i] == variant_ctor_spec(
            variants[i],
            mo,
            i,
        )->Ok_0);
    }
}

/// Law: resolution is deterministic. Re-deriving the same declaration and
/// marker input yields identical options, plans and constructors; no hidden
/// state takes part.
pub proof fn lemma_derive_deterministic(
    blocks1: Seq<MarkerBlockView>,
    data1: DataDeclView,
    blocks2: Seq<MarkerBlockView>,
    data2: DataDeclView,
)
    requires
        blocks1 == blocks2,
        data1 == data2,
    ensures
        derive_spec(blocks1, data1) == derive_spec(blocks2, data2),
{
}

} // verus!
