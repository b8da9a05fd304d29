//! Lint-attribute selection and the string utilities.

use new_core::errors::{ConfigError, FieldKey, MainKey};
use new_core::lints::collect_lint_indices;
use new_core::messages::error_message;
use new_core::model::ItemKind;
use new_core::strutil::str_eq;

#[test]
fn lint_attributes_are_selected_in_order() {
    let paths: Vec<String> = ["derive", "allow", "doc", "deny", "warn", "serde", "forbid"]
        .iter()
        .map(|s| s.to_string())
        .collect();
    let r = collect_lint_indices(&paths);
    assert_eq!(r, vec![1, 3, 4, 6]);
}

#[test]
fn no_lint_attributes_select_nothing() {
    let paths: Vec<String> = vec!["derive".to_string(), "doc".to_string()];
    let r = collect_lint_indices(&paths);
    assert!(r.is_empty());
}

#[test]
fn lint_selection_of_an_empty_list_is_empty() {
    let r = collect_lint_indices(&vec![]);
    assert!(r.is_empty());
}

#[test]
fn near_miss_names_are_not_lints() {
    let paths: Vec<String> = vec!["allowed".to_string(), "warns".to_string(), "allow".to_string()];
    let r = collect_lint_indices(&paths);
    assert_eq!(r, vec![2]);
}

#[test]
fn str_eq_compares_contents() {
    assert!(str_eq("pub", "pub"));
    assert!(!str_eq("pub", "pup"));
    assert!(!str_eq("pub", "public"));
    assert!(str_eq("", ""));
    assert!(!str_eq("", "a"));
}

#[test]
fn error_messages_are_exact() {
    assert_eq!(
        error_message(&ConfigError::RenameEmptySuggestNoPrefix),
        "Empty `rename` is not allowed. If you want enum constructors without prefixes, replace it with `no_prefix`."
    );
    assert_eq!(
        error_message(&ConfigError::UnknownMainKey(ItemKind::Product)),
        "Unknown argument. Expected one of: `pub`, `rename`, `const`."
    );
    assert_eq!(
        error_message(&ConfigError::UnknownMainKey(ItemKind::Sum)),
        "Unknown argument. Expected one of: `pub`, `rename`, `no_prefix`, `const`."
    );
    assert_eq!(
        error_message(&ConfigError::ConstantConvert),
        "`into` cannot be used in constant constructors."
    );
}

#[test]
fn duplicate_key_messages_name_the_key() {
    assert_eq!(
        error_message(&ConfigError::DuplicateMainKey(MainKey::Visibility)),
        "`pub` specified more than once in `#[new(...)]`."
    );
    assert_eq!(
        error_message(&ConfigError::DuplicateFieldKey(FieldKey::ConvertEach)),
        "`into_iter` specified more than once in field `#[new(...)]`."
    );
}
