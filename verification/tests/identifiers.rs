use std::collections::hash_map::DefaultHasher;
use std::hash::{Hash, Hasher};

use asset_model::errors::ParseError;
use asset_model::ids::{AccountId, AssetDefinitionId, AssetId, DomainId, Name};
use asset_model::order::Comparison;

fn hash_of<T: Hash>(value: &T) -> u64 {
    let mut hasher = DefaultHasher::new();
    value.hash(&mut hasher);
    hasher.finish()
}

#[test]
fn definition_id_formats_and_reparses() {
    let id = AssetDefinitionId::new("rose", "wonderland").unwrap();
    let text = id.canonical_string();
    assert_eq!(text, "rose#wonderland");
    let reparsed = AssetDefinitionId::parse(&text).unwrap();
    assert!(id == reparsed);
    assert_eq!(hash_of(&id), hash_of(&reparsed));
}

#[test]
fn parse_format_parse_is_parse() {
    let first = AssetDefinitionId::parse("rose#wonderland").unwrap();
    let second = AssetDefinitionId::parse(&first.canonical_string()).unwrap();
    assert!(first == second);
    assert_eq!(first.name.as_str(), "rose");
    assert_eq!(first.domain.as_str(), "wonderland");
}

#[test]
fn domain_with_separator_is_rejected() {
    assert_eq!(DomainId::new("a#b").unwrap_err(), ParseError::ReservedCharacter);
    assert_eq!(
        AssetDefinitionId::new("rose", "a#b").unwrap_err(),
        ParseError::ReservedCharacter
    );
    assert_eq!(DomainId::new("a@b").unwrap_err(), ParseError::ReservedCharacter);
}

#[test]
fn empty_components_are_rejected() {
    assert_eq!(Name::new("").unwrap_err(), ParseError::EmptyComponent);
    assert_eq!(AssetDefinitionId::new("", "wonderland").unwrap_err(), ParseError::EmptyComponent);
    assert_eq!(AssetDefinitionId::new("rose", "").unwrap_err(), ParseError::EmptyComponent);
    assert_eq!(AssetDefinitionId::parse("#wonderland").unwrap_err(), ParseError::EmptyComponent);
    assert_eq!(AssetDefinitionId::parse("rose#").unwrap_err(), ParseError::EmptyComponent);
}

#[test]
fn missing_separator_is_rejected() {
    assert_eq!(AssetDefinitionId::parse("rose").unwrap_err(), ParseError::MissingSeparator);
    assert_eq!(AccountId::parse("alice").unwrap_err(), ParseError::MissingSeparator);
}

#[test]
fn second_separator_is_rejected() {
    assert_eq!(
        AssetDefinitionId::parse("rose#wonder#land").unwrap_err(),
        ParseError::ReservedCharacter
    );
}

#[test]
fn setters_revalidate_only_the_changed_component() {
    let mut id = AssetDefinitionId::new("rose", "wonderland").unwrap();
    id.set_name("tulip").unwrap();
    assert_eq!(id.canonical_string(), "tulip#wonderland");
    id.set_domain("looking_glass").unwrap();
    assert_eq!(id.canonical_string(), "tulip#looking_glass");
}

#[test]
fn failed_setter_leaves_the_id_untouched() {
    let mut id = AssetDefinitionId::new("rose", "wonderland").unwrap();
    assert_eq!(id.set_name("bad#name").unwrap_err(), ParseError::ReservedCharacter);
    assert_eq!(id.set_domain("").unwrap_err(), ParseError::EmptyComponent);
    assert_eq!(id.canonical_string(), "rose#wonderland");
}

#[test]
fn ordering_is_total_on_samples() {
    let a = AssetDefinitionId::new("apple", "m").unwrap();
    let b = AssetDefinitionId::new("banana", "a").unwrap();
    let c = AssetDefinitionId::new("banana", "b").unwrap();
    assert!(matches!(a.cmp_with(&b), Comparison::Less));
    assert!(matches!(b.cmp_with(&a), Comparison::Greater));
    assert!(matches!(b.cmp_with(&c), Comparison::Less));
    assert!(matches!(a.cmp_with(&c), Comparison::Less));
    assert!(matches!(a.cmp_with(&a), Comparison::Equal));
    let a_again = AssetDefinitionId::new("apple", "m").unwrap();
    assert!(matches!(a.cmp_with(&a_again), Comparison::Equal));
    assert!(a == a_again);
}

#[test]
fn ordering_is_by_name_then_domain() {
    let x = AssetDefinitionId::new("a", "z").unwrap();
    let y = AssetDefinitionId::new("b", "a").unwrap();
    assert!(matches!(x.cmp_with(&y), Comparison::Less));
    let p = AssetDefinitionId::new("same", "a").unwrap();
    let q = AssetDefinitionId::new("same", "b").unwrap();
    assert!(matches!(p.cmp_with(&q), Comparison::Less));
}

#[test]
fn account_id_round_trips() {
    let account = AccountId::parse("alice@wonderland").unwrap();
    assert_eq!(account.canonical_string(), "alice@wonderland");
    assert_eq!(account.signatory.as_str(), "alice");
    assert_eq!(account.domain.as_str(), "wonderland");
    let reparsed = AccountId::parse(&account.canonical_string()).unwrap();
    assert!(account == reparsed);
}

#[test]
fn account_id_from_components() {
    let account = AccountId::new("alice", "wonderland").unwrap();
    assert_eq!(account.canonical_string(), "alice@wonderland");
    assert_eq!(AccountId::new("al@ice", "w").unwrap_err(), ParseError::ReservedCharacter);
    assert_eq!(AccountId::new("alice", "").unwrap_err(), ParseError::EmptyComponent);
}

#[test]
fn asset_id_combines_definition_and_account() {
    let definition = AssetDefinitionId::new("rose", "wonderland").unwrap();
    let account = AccountId::new("alice", "wonderland").unwrap();
    let asset = AssetId::new(definition, account);
    assert_eq!(asset.canonical_string(), "rose#wonderland#alice@wonderland");
}

#[test]
fn asset_id_parses_its_canonical_form() {
    let asset = AssetId::parse("rose#wonderland#alice@wonderland").unwrap();
    assert_eq!(asset.definition.name.as_str(), "rose");
    assert_eq!(asset.definition.domain.as_str(), "wonderland");
    assert_eq!(asset.account.signatory.as_str(), "alice");
    assert_eq!(asset.account.domain.as_str(), "wonderland");
    let reparsed = AssetId::parse(&asset.canonical_string()).unwrap();
    assert!(asset == reparsed);
}

#[test]
fn malformed_asset_id_strings_are_rejected() {
    assert_eq!(AssetId::parse("rose").unwrap_err(), ParseError::MissingSeparator);
    assert_eq!(AssetId::parse("rose#wonderland").unwrap_err(), ParseError::MissingSeparator);
    assert_eq!(
        AssetId::parse("rose#wonderland#alice").unwrap_err(),
        ParseError::MissingSeparator
    );
    assert_eq!(AssetId::parse("#wonderland#alice@w").unwrap_err(), ParseError::EmptyComponent);
    assert_eq!(
        AssetId::parse("rose#wonderland#@w").unwrap_err(),
        ParseError::EmptyComponent
    );
}

#[test]
fn asset_id_ordering_is_by_definition_then_account() {
    let d1 = AssetDefinitionId::new("rose", "wonderland").unwrap();
    let d2 = AssetDefinitionId::new("tulip", "wonderland").unwrap();
    let a1 = AccountId::new("alice", "wonderland").unwrap();
    let a2 = AccountId::new("bob", "wonderland").unwrap();
    let x = AssetId::new(d1.clone(), a1.clone());
    let y = AssetId::new(d2, a1);
    let z = AssetId::new(d1, a2);
    assert!(matches!(x.cmp_with(&y), Comparison::Less));
    assert!(matches!(x.cmp_with(&z), Comparison::Less));
    assert!(matches!(x.cmp_with(&x), Comparison::Equal));
    assert!(x == x.clone());
}
