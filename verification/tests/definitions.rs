use asset_model::definition::{
    AssetDefinition, AssetType, DefinitionIdInput, Mintable, NewAssetDefinition,
};
use asset_model::errors::{DefinitionError, ParseError, UnsupportedOperationError};
use asset_model::ids::{AccountId, AssetDefinitionId};
use asset_model::ipfs::IpfsPath;
use asset_model::metadata::Metadata;
use asset_model::numeric::NumericSpec;

fn rose_id() -> AssetDefinitionId {
    AssetDefinitionId::new("rose", "wonderland").unwrap()
}

#[test]
fn new_request_carries_defaults() {
    let request = NewAssetDefinition::new(rose_id(), AssetType::numeric_unconstrained());
    assert_eq!(request.mintable, Mintable::Infinitely);
    assert!(request.logo.is_none());
    assert_eq!(request.asset_type, AssetType::Numeric(NumericSpec::Unconstrained));
}

#[test]
fn build_accepts_typed_and_raw_identifiers() {
    let typed = NewAssetDefinition::build(
        DefinitionIdInput::Id(rose_id()),
        AssetType::store(),
        None,
        None,
        None,
    )
    .unwrap();
    let raw = NewAssetDefinition::build(
        DefinitionIdInput::Text("rose#wonderland".to_string()),
        AssetType::store(),
        None,
        None,
        None,
    )
    .unwrap();
    assert!(typed.id == raw.id);
    assert_eq!(typed.asset_type, AssetType::Store);
}

#[test]
fn build_rejects_a_malformed_identifier() {
    let err = NewAssetDefinition::build(
        DefinitionIdInput::Text("rose".to_string()),
        AssetType::store(),
        None,
        None,
        None,
    )
    .unwrap_err();
    assert_eq!(err, DefinitionError::Parse(ParseError::MissingSeparator));
}

#[test]
fn build_rejects_a_malformed_logo() {
    let err = NewAssetDefinition::build(
        DefinitionIdInput::Id(rose_id()),
        AssetType::store(),
        None,
        Some("//bad".to_string()),
        None,
    )
    .unwrap_err();
    assert_eq!(err, DefinitionError::Parse(ParseError::InvalidIpfsPath));
}

#[test]
fn build_with_metadata_is_unsupported() {
    let err = NewAssetDefinition::build(
        DefinitionIdInput::Id(rose_id()),
        AssetType::store(),
        None,
        None,
        Some(Metadata::empty()),
    )
    .unwrap_err();
    assert_eq!(
        err,
        DefinitionError::Unsupported(UnsupportedOperationError::MetadataConstruction)
    );
}

#[test]
fn mint_policy_reads_back_as_chosen() {
    for policy in [Mintable::Infinitely, Mintable::Once, Mintable::Not] {
        let request = NewAssetDefinition::build(
            DefinitionIdInput::Id(rose_id()),
            AssetType::numeric_fractional(2),
            Some(policy),
            None,
            None,
        )
        .unwrap();
        assert_eq!(request.mintable, policy);
        let owner = AccountId::new("alice", "wonderland").unwrap();
        let definition = AssetDefinition::mirror(request, owner);
        assert_eq!(definition.mintable(), policy);
    }
}

#[test]
fn default_mint_policy_is_infinitely() {
    let request = NewAssetDefinition::build(
        DefinitionIdInput::Id(rose_id()),
        AssetType::store(),
        None,
        None,
        None,
    )
    .unwrap();
    assert_eq!(request.mintable, Mintable::Infinitely);
}

#[test]
fn mirrored_definition_always_has_an_owner() {
    let request = NewAssetDefinition::new(rose_id(), AssetType::numeric_unconstrained());
    let owner = AccountId::new("alice", "wonderland").unwrap();
    let definition = AssetDefinition::mirror(request, owner.clone());
    assert!(*definition.owned_by() == owner);
    assert!(*definition.id() == rose_id());
    assert!(definition.logo().is_none());
}

#[test]
fn logo_is_carried_through_to_the_mirror() {
    let request = NewAssetDefinition::build(
        DefinitionIdInput::Id(rose_id()),
        AssetType::store(),
        None,
        Some("/ipfs/QmRose".to_string()),
        None,
    )
    .unwrap();
    let owner = AccountId::new("alice", "wonderland").unwrap();
    let definition = AssetDefinition::mirror(request, owner);
    assert_eq!(definition.logo(), Some("/ipfs/QmRose"));
}

#[test]
fn set_id_validates_raw_text_atomically() {
    let mut request = NewAssetDefinition::new(rose_id(), AssetType::store());
    request
        .set_id(DefinitionIdInput::Text("tulip#wonderland".to_string()))
        .unwrap();
    assert_eq!(request.id.canonical_string(), "tulip#wonderland");
    let err = request
        .set_id(DefinitionIdInput::Text("no_separator".to_string()))
        .unwrap_err();
    assert_eq!(err, ParseError::MissingSeparator);
    assert_eq!(request.id.canonical_string(), "tulip#wonderland");
}

#[test]
fn set_logo_validates_and_none_changes_nothing() {
    let mut request = NewAssetDefinition::new(rose_id(), AssetType::store());
    request.set_logo(Some("QmRose".to_string())).unwrap();
    assert_eq!(request.logo.as_ref().map(|p| p.as_str()), Some("QmRose"));
    let err = request.set_logo(Some("trailing/".to_string())).unwrap_err();
    assert_eq!(err, ParseError::InvalidIpfsPath);
    assert_eq!(request.logo.as_ref().map(|p| p.as_str()), Some("QmRose"));
    request.set_logo(None).unwrap();
    assert_eq!(request.logo.as_ref().map(|p| p.as_str()), Some("QmRose"));
}

#[test]
fn ipfs_path_grammar_accepts_and_rejects() {
    assert!(IpfsPath::parse("QmRose").is_ok());
    assert!(IpfsPath::parse("QmRose/sub/path").is_ok());
    assert!(IpfsPath::parse("/ipfs/QmRose").is_ok());
    assert!(IpfsPath::parse("/ipld/QmRose/leaf").is_ok());
    assert!(IpfsPath::parse("/ipns/name").is_ok());
    assert_eq!(IpfsPath::parse("").unwrap_err(), ParseError::InvalidIpfsPath);
    assert_eq!(IpfsPath::parse("Q").unwrap_err(), ParseError::InvalidIpfsPath);
    assert_eq!(IpfsPath::parse("Qm//x").unwrap_err(), ParseError::InvalidIpfsPath);
    assert_eq!(IpfsPath::parse("QmRose/").unwrap_err(), ParseError::InvalidIpfsPath);
    assert_eq!(IpfsPath::parse("/ipxx/QmRose").unwrap_err(), ParseError::InvalidIpfsPath);
    assert_eq!(IpfsPath::parse("/ipfs").unwrap_err(), ParseError::InvalidIpfsPath);
}

#[test]
fn asset_type_constructors_are_inspectable() {
    assert_eq!(
        AssetType::numeric_fractional(4),
        AssetType::Numeric(NumericSpec::Fractional(4))
    );
    assert_eq!(NumericSpec::fractional(4).scale(), Some(4));
    assert_eq!(NumericSpec::unconstrained().scale(), None);
    assert_eq!(AssetType::store(), AssetType::Store);
}
