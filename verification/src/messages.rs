//! The diagnostic text of each configuration error. Every rejection carries
//! exactly one human-readable message; the renderer outside this crate only
//! anchors it at the offending node.

use vstd::prelude::*;
use vstd::string::StringExecFns;
use crate::errors::{ConfigError, FieldKey, MainKey};
use crate::model::ItemKind;

verus! {

/// The message of one error, character for character.
pub open spec fn message_spec(e: ConfigError) -> Seq<char> {
    match e {
        ConfigError::UnsupportedDecl => "`New` can only be derived for structs and enums."@,
        ConfigError::MultipleMainBlocks => "Multiple `#[new(...)]` attributes are not allowed."@,
        ConfigError::EmptyMainBlock => "`#[new]` requires at least one argument (e.g. `#[new(pub)]` or `#[new(rename = \"name\")]`)."@,
        ConfigError::UnknownMainKey(ItemKind::Sum) => "Unknown argument. Expected one of: `pub`, `rename`, `no_prefix`, `const`."@,
        ConfigError::UnknownMainKey(ItemKind::Product) => "Unknown argument. Expected one of: `pub`, `rename`, `const`."@,
        ConfigError::MainKeyHintVisibility => "Unknown argument `public`. Did you mean `pub`?"@,
        ConfigError::MainKeyHintConstantSafe => "Unknown argument `constant`. Did you mean `const`?"@,
        ConfigError::DuplicateMainKey(MainKey::Visibility) => "`pub` specified more than once in `#[new(...)]`."@,
        ConfigError::DuplicateMainKey(MainKey::Rename) => "`rename` specified more than once in `#[new(...)]`."@,
        ConfigError::DuplicateMainKey(MainKey::NoPrefix) => "`no_prefix` specified more than once in `#[new(...)]`."@,
        ConfigError::DuplicateMainKey(MainKey::ConstantSafe) => "`const` specified more than once in `#[new(...)]`."@,
        ConfigError::VisibilityScopeEmpty => "Empty `pub()` is not valid. Use `pub` or `pub(<restriction>)`."@,
        ConfigError::VisibilityScopeUnknown => "Unknown visibility inside `pub(...)`. Expected `crate`, `super`, `self`, or `in <path>`."@,
        ConfigError::VisibilityNeedsBool => "Expected boolean literal after `pub =`."@,
        ConfigError::RenameNeedsValue => "Expected `rename = \"name\"`."@,
        ConfigError::RenameNeedsString => "Expected string literal after `rename =`."@,
        ConfigError::RenameEmpty => "Expected non-empty string literal after `rename =`."@,
        ConfigError::RenameEmptySuggestNoPrefix => "Empty `rename` is not allowed. If you want enum constructors without prefixes, replace it with `no_prefix`."@,
        ConfigError::RenameNotIdentifier => "`rename` must be a valid Rust identifier."@,
        ConfigError::NoPrefixOnProduct => "`no_prefix` is only supported on enums."@,
        ConfigError::NoPrefixNeedsBool => "Expected boolean literal after `no_prefix =`."@,
        ConfigError::ConstantSafeNeedsBool => "Expected boolean literal after `const =`."@,
        ConfigError::RenameWithNoPrefix => "`rename` cannot be combined with `no_prefix` in `#[new(...)]`."@,
        ConfigError::MultipleFieldBlocks => "Multiple field `#[new(...)]` attributes are not allowed."@,
        ConfigError::EmptyFieldBlock => "Field `#[new]` requires at least one argument (e.g. `#[new(optional)]` or `#[new(default = 123)]`)."@,
        ConfigError::UnknownFieldKey => "Unknown argument in field `#[new(...)]`. Expected one of: `default`, `optional`, `into`, `into_iter`."@,
        ConfigError::FieldKeyHintOptional => "Unknown argument `option`. Did you mean `optional`?"@,
        ConfigError::DuplicateFieldKey(FieldKey::Default) => "`default` specified more than once in field `#[new(...)]`."@,
        ConfigError::DuplicateFieldKey(FieldKey::Optional) => "`optional` specified more than once in field `#[new(...)]`."@,
        ConfigError::DuplicateFieldKey(FieldKey::Convert) => "`into` specified more than once in field `#[new(...)]`."@,
        ConfigError::DuplicateFieldKey(FieldKey::ConvertEach) => "`into_iter` specified more than once in field `#[new(...)]`."@,
        ConfigError::DefaultNeedsExpression => "Expected `default` or `default = <expression>`."@,
        ConfigError::OptionalNeedsBool => "Expected boolean literal after `optional =`."@,
        ConfigError::ConvertNeedsBool => "Expected boolean literal after `into =`."@,
        ConfigError::ConvertEachNeedsType => "Expected a type after `into_iter =`."@,
        ConfigError::CannotInferElemType => "Could not infer iterator item type from field type. Use `#[new(into_iter = T)]` to specify the item type explicitly."@,
        ConfigError::ElemArgNotAType => "Unsupported generic argument. Use `#[new(into_iter = T)]` to specify the iterator item type explicitly."@,
        ConfigError::TraitDefaultWithOptional => "Parameterless `default` is not needed when `optional` is true. Remove `default`."@,
        ConfigError::DefaultWithConvert => "`default` cannot be combined with `into` in field `#[new(...)]`."@,
        ConfigError::DefaultWithConvertEach => "`default` cannot be combined with `into_iter` in field `#[new(...)]`."@,
        ConfigError::DefaultOnAutoField => "`default` can be skipped for fields that have automatic defaults (`()` or `PhantomData`)."@,
        ConfigError::OptionalOnAutoField => "`optional` cannot be used on fields that have automatic defaults (`()` or `PhantomData`)."@,
        ConfigError::OptionalWithConvert => "`optional` cannot be combined with `into` in field `#[new(...)]`."@,
        ConfigError::OptionalWithConvertEach => "`optional` cannot be combined with `into_iter` in field `#[new(...)]`."@,
        ConfigError::ConvertWithConvertEach => "`into` cannot be combined with `into_iter` in field `#[new(...)]`."@,
        ConfigError::ConstantTraitDefault => "`default` cannot be used in constant constructors."@,
        ConfigError::ConstantOptionalNeedsDefault => "`optional` without an explicit `default = ...` cannot be used in constant constructors."@,
        ConfigError::ConstantConvert => "`into` cannot be used in constant constructors."@,
        ConfigError::ConstantConvertEach => "`into_iter` cannot be used in constant constructors."@,
    }
}

/// The message of one error.
pub fn error_message(e: &ConfigError) -> (r: String)
    ensures
        r@ == message_spec(*e),
{
    match e {
        ConfigError::UnsupportedDecl => String::from_str("`New` can only be derived for structs and enums."),
        ConfigError::MultipleMainBlocks => String::from_str("Multiple `#[new(...)]` attributes are not allowed."),
        ConfigError::EmptyMainBlock => String::from_str("`#[new]` requires at least one argument (e.g. `#[new(pub)]` or `#[new(rename = \"name\")]`)."),
        ConfigError::UnknownMainKey(ItemKind::Sum) => String::from_str("Unknown argument. Expected one of: `pub`, `rename`, `no_prefix`, `const`."),
        ConfigError::UnknownMainKey(ItemKind::Product) => String::from_str("Unknown argument. Expected one of: `pub`, `rename`, `const`."),
        ConfigError::MainKeyHintVisibility => String::from_str("Unknown argument `public`. Did you mean `pub`?"),
        ConfigError::MainKeyHintConstantSafe => String::from_str("Unknown argument `constant`. Did you mean `const`?"),
        ConfigError::DuplicateMainKey(MainKey::Visibility) => String::from_str("`pub` specified more than once in `#[new(...)]`."),
        ConfigError::DuplicateMainKey(MainKey::Rename) => String::from_str("`rename` specified more than once in `#[new(...)]`."),
        ConfigError::DuplicateMainKey(MainKey::NoPrefix) => String::from_str("`no_prefix` specified more than once in `#[new(...)]`."),
        ConfigError::DuplicateMainKey(MainKey::ConstantSafe) => String::from_str("`const` specified more than once in `#[new(...)]`."),
        ConfigError::VisibilityScopeEmpty => String::from_str("Empty `pub()` is not valid. Use `pub` or `pub(<restriction>)`."),
        ConfigError::VisibilityScopeUnknown => String::from_str("Unknown visibility inside `pub(...)`. Expected `crate`, `super`, `self`, or `in <path>`."),
        ConfigError::VisibilityNeedsBool => String::from_str("Expected boolean literal after `pub =`."),
        ConfigError::RenameNeedsValue => String::from_str("Expected `rename = \"name\"`."),
        ConfigError::RenameNeedsString => String::from_str("Expected string literal after `rename =`."),
        ConfigError::RenameEmpty => String::from_str("Expected non-empty string literal after `rename =`."),
        ConfigError::RenameEmptySuggestNoPrefix => String::from_str("Empty `rename` is not allowed. If you want enum constructors without prefixes, replace it with `no_prefix`."),
        ConfigError::RenameNotIdentifier => String::from_str("`rename` must be a valid Rust identifier."),
        ConfigError::NoPrefixOnProduct => String::from_str("`no_prefix` is only supported on enums."),
        ConfigError::NoPrefixNeedsBool => String::from_str("Expected boolean literal after `no_prefix =`."),
        ConfigError::ConstantSafeNeedsBool => String::from_str("Expected boolean literal after `const =`."),
        ConfigError::RenameWithNoPrefix => String::from_str("`rename` cannot be combined with `no_prefix` in `#[new(...)]`."),
        ConfigError::MultipleFieldBlocks => String::from_str("Multiple field `#[new(...)]` attributes are not allowed."),
        ConfigError::EmptyFieldBlock => String::from_str("Field `#[new]` requires at least one argument (e.g. `#[new(optional)]` or `#[new(default = 123)]`)."),
        ConfigError::UnknownFieldKey => String::from_str("Unknown argument in field `#[new(...)]`. Expected one of: `default`, `optional`, `into`, `into_iter`."),
        ConfigError::FieldKeyHintOptional => String::from_str("Unknown argument `option`. Did you mean `optional`?"),
        ConfigError::DuplicateFieldKey(FieldKey::Default) => String::from_str("`default` specified more than once in field `#[new(...)]`."),
        ConfigError::DuplicateFieldKey(FieldKey::Optional) => String::from_str("`optional` specified more than once in field `#[new(...)]`."),
        ConfigError::DuplicateFieldKey(FieldKey::Convert) => String::from_str("`into` specified more than once in field `#[new(...)]`."),
        ConfigError::DuplicateFieldKey(FieldKey::ConvertEach) => String::from_str("`into_iter` specified more than once in field `#[new(...)]`."),
        ConfigError::DefaultNeedsExpression => String::from_str("Expected `default` or `default = <expression>`."),
        ConfigError::OptionalNeedsBool => String::from_str("Expected boolean literal after `optional =`."),
        ConfigError::ConvertNeedsBool => String::from_str("Expected boolean literal after `into =`."),
        ConfigError::ConvertEachNeedsType => String::from_str("Expected a type after `into_iter =`."),
        ConfigError::CannotInferElemType => String::from_str("Could not infer iterator item type from field type. Use `#[new(into_iter = T)]` to specify the item type explicitly."),
        ConfigError::ElemArgNotAType => String::from_str("Unsupported generic argument. Use `#[new(into_iter = T)]` to specify the iterator item type explicitly."),
        ConfigError::TraitDefaultWithOptional => String::from_str("Parameterless `default` is not needed when `optional` is true. Remove `default`."),
        ConfigError::DefaultWithConvert => String::from_str("`default` cannot be combined with `into` in field `#[new(...)]`."),
        ConfigError::DefaultWithConvertEach => String::from_str("`default` cannot be combined with `into_iter` in field `#[new(...)]`."),
        ConfigError::DefaultOnAutoField => String::from_str("`default` can be skipped for fields that have automatic defaults (`()` or `PhantomData`)."),
        ConfigError::OptionalOnAutoField => String::from_str("`optional` cannot be used on fields that have automatic defaults (`()` or `PhantomData`)."),
        ConfigError::OptionalWithConvert => String::from_str("`optional` cannot be combined with `into` in field `#[new(...)]`."),
        ConfigError::OptionalWithConvertEach => String::from_str("`optional` cannot be combined with `into_iter` in field `#[new(...)]`."),
        ConfigError::ConvertWithConvertEach => String::from_str("`into` cannot be combined with `into_iter` in field `#[new(...)]`."),
        ConfigError::ConstantTraitDefault => String::from_str("`default` cannot be used in constant constructors."),
        ConfigError::ConstantOptionalNeedsDefault => String::from_str("`optional` without an explicit `default = ...` cannot be used in constant constructors."),
        ConfigError::ConstantConvert => String::from_str("`into` cannot be used in constant constructors."),
        ConfigError::ConstantConvertEach => String::from_str("`into_iter` cannot be used in constant constructors."),
    }
}

} // verus!
