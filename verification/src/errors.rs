//! Configuration errors: every way a marker block can be rejected.
//!
//! Each variant identifies one validation rule; variants carry the key or
//! declaration kind the diagnostic text depends on. A renderer outside this
//! crate turns a variant into a human-readable message anchored at the
//! offending marker, field or type.

use vstd::prelude::*;
use crate::model::ItemKind;

verus! {

/// A recognized type-level marker key.
#[derive(Clone, Copy, PartialEq, Eq, Structural, Debug)]
pub enum MainKey {
    Visibility,
    Rename,
    NoPrefix,
    ConstantSafe,
}

/// A recognized field-level marker key.
#[derive(Clone, Copy, PartialEq, Eq, Structural, Debug)]
pub enum FieldKey {
    Default,
    Optional,
    Convert,
    ConvertEach,
}

/// One configuration or validation error. Mutually exclusive with any
/// generated output: a declaration either resolves fully or yields exactly
/// one of these.
#[derive(Clone, Copy, PartialEq, Eq, Structural, Debug)]
pub enum ConfigError {
    /// the declaration kind (neither product nor sum) is not supported
    UnsupportedDecl,
    /// more than one type-level configuration block on one type
    MultipleMainBlocks,
    /// a type-level block with no argument at all
    EmptyMainBlock,
    /// an unrecognized type-level key; the recognized set depends on the kind
    UnknownMainKey(ItemKind),
    /// `public` written for the visibility key
    MainKeyHintVisibility,
    /// `constant` written for the constant-safety key
    MainKeyHintConstantSafe,
    /// the same type-level key given twice
    DuplicateMainKey(MainKey),
    /// an empty restriction `pub()`
    VisibilityScopeEmpty,
    /// an unrecognized restriction inside `pub(...)`
    VisibilityScopeUnknown,
    /// `pub = v` where v is not a boolean literal
    VisibilityNeedsBool,
    /// `rename` without `= "name"`
    RenameNeedsValue,
    /// `rename = v` where v is not a string literal
    RenameNeedsString,
    /// `rename = ""` on a product type
    RenameEmpty,
    /// `rename = ""` on a sum type; suggests the prefix-suppression marker
    RenameEmptySuggestNoPrefix,
    /// a rename value that is not a valid identifier
    RenameNotIdentifier,
    /// the prefix-suppression marker on a product type
    NoPrefixOnProduct,
    /// `no_prefix = v` where v is not a boolean literal
    NoPrefixNeedsBool,
    /// `const = v` where v is not a boolean literal
    ConstantSafeNeedsBool,
    /// rename and prefix suppression set together
    RenameWithNoPrefix,
    /// more than one configuration block on one field
    MultipleFieldBlocks,
    /// a field block with no argument at all
    EmptyFieldBlock,
    /// an unrecognized field-level key
    UnknownFieldKey,
    /// `option` written for the optional key
    FieldKeyHintOptional,
    /// the same field-level key given twice
    DuplicateFieldKey(FieldKey),
    /// `default(...)`: the default marker takes `= expression` or nothing
    DefaultNeedsExpression,
    /// `optional = v` where v is not a boolean literal
    OptionalNeedsBool,
    /// `into = v` where v is not a boolean literal
    ConvertNeedsBool,
    /// `into_iter = v` where v is not a type
    ConvertEachNeedsType,
    /// element-type inference failed: the field type is not a container path
    /// with an angle-bracketed argument
    CannotInferElemType,
    /// element-type inference hit a generic argument that is not a type
    ElemArgNotAType,
    /// a bare default marker together with optional, which already falls
    /// back to the trait-provided default
    TraitDefaultWithOptional,
    /// an explicit default together with convert-on-construct
    DefaultWithConvert,
    /// an explicit default together with convert-each-on-construct
    DefaultWithConvertEach,
    /// an explicit default on a field whose type already gets an automatic
    /// default
    DefaultOnAutoField,
    /// optional on a field whose type already gets an automatic default
    OptionalOnAutoField,
    /// optional together with convert-on-construct
    OptionalWithConvert,
    /// optional together with convert-each-on-construct
    OptionalWithConvertEach,
    /// convert-on-construct together with convert-each-on-construct
    ConvertWithConvertEach,
    /// a trait-provided default is not constant-evaluable
    ConstantTraitDefault,
    /// optional without an expression default falls back to a trait default,
    /// which is not constant-evaluable
    ConstantOptionalNeedsDefault,
    /// the conversion mechanism is not constant-evaluable
    ConstantConvert,
    /// iteration and collection are not constant-evaluable
    ConstantConvertEach,
}

/// An error found while processing one field: the field's position in its
/// list, for anchoring the diagnostic.
#[derive(Clone, Copy, PartialEq, Eq, Structural, Debug)]
pub struct FieldError {
    pub field: usize,
    pub error: ConfigError,
}

/// An error of a whole derivation, anchored to the variant and field it
/// arose at, when it arose at one.
#[derive(Clone, Copy, PartialEq, Eq, Structural, Debug)]
pub struct DeriveError {
    pub variant: Option<usize>,
    pub field: Option<usize>,
    pub error: ConfigError,
}

} // verus!
