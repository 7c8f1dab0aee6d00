//! Asset definitions: the kind of value a class of assets holds, its mint
//! policy, and the split between a registration request (freely mutable,
//! ownerless) and a ledger-confirmed definition (read through getters,
//! carrying the owner the ledger assigned).
use vstd::prelude::*;

use crate::errors::{DefinitionError, ParseError, UnsupportedOperationError};
use crate::ids::{
    spec_parse_definition_id, AccountId, AccountIdView, AssetDefinitionId, AssetDefinitionIdView,
};
use crate::ipfs::{valid_ipfs_path, IpfsPath};
use crate::metadata::Metadata;
use crate::numeric::NumericSpec;

verus! {

/// What kind of value a definition's assets hold: an exact decimal under a
/// numeric constraint, or an opaque structured store (never a scalar).
#[derive(Clone, Copy, Debug, PartialEq, Eq, Structural, Hash)]
pub enum AssetType {
    Numeric(NumericSpec),
    Store,
}

impl AssetType {
    /// Numeric values with no constraint on their scale.
    pub fn numeric_unconstrained() -> (r: AssetType)
        ensures
            r == AssetType::Numeric(NumericSpec::Unconstrained),
    {
        AssetType::Numeric(NumericSpec::Unconstrained)
    }

    /// Numeric values with at most `scale` digits after the decimal point.
    pub fn numeric_fractional(scale: u32) -> (r: AssetType)
        ensures
            r == AssetType::Numeric(NumericSpec::Fractional(scale)),
    {
        AssetType::Numeric(NumericSpec::Fractional(scale))
    }

    /// Structured-store values.
    pub fn store() -> (r: AssetType)
        ensures
            r == AssetType::Store,
    {
        AssetType::Store
    }
}

/// How the supply of a definition may grow after registration: without
/// bound, exactly once more, or not at all. This type only records the
/// chosen policy and makes it inspectable; enforcing it on mint operations
/// is the consuming ledger's job, never this model's.
#[derive(Clone, Copy, Debug, PartialEq, Eq, Structural, Hash)]
pub enum Mintable {
    /// Unbounded mint operations are permitted.
    Infinitely,
    /// Exactly one successful mint is permitted after creation.
    Once,
    /// No mint operations are permitted after creation.
    Not,
}

/// The identifier argument of a registration request: an already-parsed
/// identifier, or raw text still to be held to the grammar.
pub enum DefinitionIdInput {
    Id(AssetDefinitionId),
    Text(String),
}

/// The parse such an argument must pass.
pub open spec fn spec_resolve_id_input(input: DefinitionIdInput) -> Result<
    AssetDefinitionIdView,
    ParseError,
> {
    match input {
        DefinitionIdInput::Id(id) => Ok(id@),
        DefinitionIdInput::Text(s) => spec_parse_definition_id(s@),
    }
}

/// Mathematical shape of a registration request.
pub ghost struct NewAssetDefinitionView {
    pub id: AssetDefinitionIdView,
    pub asset_type: AssetType,
    pub mintable: Mintable,
    pub logo: Option<Seq<char>>,
}

/// The text of an optional logo argument.
pub open spec fn view_of_logo(logo: Option<String>) -> Option<Seq<char>> {
    match logo {
        Some(l) => Some(l@),
        None => None,
    }
}

/// Outcome of building a registration request: the identifier parse is
/// checked first, then the logo grammar, then the unsupported metadata
/// request; only then does the request exist, with the default policy of
/// unbounded minting where none was chosen.
pub open spec fn spec_build_definition(
    id: Result<AssetDefinitionIdView, ParseError>,
    asset_type: AssetType,
    mintable: Option<Mintable>,
    logo: Option<Seq<char>>,
    metadata_present: bool,
) -> Result<NewAssetDefinitionView, DefinitionError> {
    match id {
        Err(e) => Err(DefinitionError::Parse(e)),
        Ok(v) => {
            let logo_ok = match logo {
                Some(l) => valid_ipfs_path(l),
                None => true,
            };
            if !logo_ok {
                Err(DefinitionError::Parse(ParseError::InvalidIpfsPath))
            } else if metadata_present {
                Err(DefinitionError::Unsupported(UnsupportedOperationError::MetadataConstruction))
            } else {
                Ok(
                    NewAssetDefinitionView {
                        id: v,
                        asset_type,
                        mintable: match mintable {
                            Some(m) => m,
                            None => Mintable::Infinitely,
                        },
                        logo,
                    },
                )
            }
        },
    }
}

/// A registration request for a new asset definition: freely mutable by the
/// client that builds it, and deliberately without an owner — ownership is
/// assigned by the ledger at registration, never chosen here. A distinct
/// type from `AssetDefinition`, so an unregistered definition can never be
/// passed off as a ledger-confirmed one.
#[derive(Clone, Debug)]
pub struct NewAssetDefinition {
    pub id: AssetDefinitionId,
    pub asset_type: AssetType,
    pub mintable: Mintable,
    pub logo: Option<IpfsPath>,
}

impl View for NewAssetDefinition {
    type V = NewAssetDefinitionView;

    open spec fn view(&self) -> NewAssetDefinitionView {
        NewAssetDefinitionView {
            id: self.id@,
            asset_type: self.asset_type,
            mintable: self.mintable,
            logo: match self.logo {
                Some(p) => Some(p@),
                None => None,
            },
        }
    }
}

impl NewAssetDefinition {
    /// Begin a request: the given identifier and value kind, the default
    /// policy of unbounded minting, and no logo.
    pub fn new(id: AssetDefinitionId, asset_type: AssetType) -> (r: NewAssetDefinition)
        ensures
            r@ == (NewAssetDefinitionView {
                id: id@,
                asset_type,
                mintable: Mintable::Infinitely,
                logo: None,
            }),
    {
        NewAssetDefinition { id, asset_type, mintable: Mintable::Infinitely, logo: None }
    }

    /// Build a request in one call from untyped inputs. Validation is eager
    /// and atomic: a failed build constructs nothing. A metadata argument
    /// is the request this model does not yet support, and is signaled
    /// distinctly from bad input.
    pub fn build(
        id: DefinitionIdInput,
        asset_type: AssetType,
        mintable: Option<Mintable>,
        logo: Option<String>,
        metadata: Option<Metadata>,
    ) -> (r: Result<NewAssetDefinition, DefinitionError>)
        ensures
            match spec_build_definition(
                spec_resolve_id_input(id),
                asset_type,
                mintable,
                view_of_logo(logo),
                metadata is Some,
            ) {
                Ok(v) => r matches Ok(d) && d@ == v,
                Err(e) => r == Err::<NewAssetDefinition, DefinitionError>(e),
            },
    {
        let id = match id {
            DefinitionIdInput::Id(v) => v,
            DefinitionIdInput::Text(s) => match AssetDefinitionId::parse(s.as_str()) {
                Ok(v) => v,
                Err(e) => {
                    return Err(DefinitionError::Parse(e));
                },
            },
        };
        let logo = match logo {
            Some(l) => match IpfsPath::parse(l.as_str()) {
                Ok(p) => Some(p),
                Err(e) => {
                    return Err(DefinitionError::Parse(e));
                },
            },
            None => None,
        };
        if metadata.is_some() {
            return Err(DefinitionError::Unsupported(
                UnsupportedOperationError::MetadataConstruction,
            ));
        }
        let mintable = match mintable {
            Some(m) => m,
            None => Mintable::Infinitely,
        };
        Ok(NewAssetDefinition { id, asset_type, mintable, logo })
    }

    /// Replace the identifier, validating raw text; a rejected input leaves
    /// the request exactly as it was.
    pub fn set_id(&mut self, id: DefinitionIdInput) -> (r: Result<(), ParseError>)
        ensures
            match spec_resolve_id_input(id) {
                Ok(v) => r is Ok && final(self)@ == (NewAssetDefinitionView {
                    id: v,
                    ..old(self)@
                }),
                Err(e) => r == Err::<(), ParseError>(e) && *final(self) == *old(self),
            },
    {
        match id {
            DefinitionIdInput::Id(v) => {
                self.id = v;
                Ok(())
            },
            DefinitionIdInput::Text(s) => match AssetDefinitionId::parse(s.as_str()) {
                Ok(v) => {
                    self.id = v;
                    Ok(())
                },
                Err(e) => Err(e),
            },
        }
    }

    /// Replace the logo, validating the new path; `None` leaves the logo as
    /// it was, and a rejected path leaves the whole request unchanged.
    pub fn set_logo(&mut self, logo: Option<String>) -> (r: Result<(), ParseError>)
        ensures
            match view_of_logo(logo) {
                Some(l) => {
                    &&& valid_ipfs_path(l) ==> r is Ok && final(self)@
                        == (NewAssetDefinitionView { logo: Some(l), ..old(self)@ })
                    &&& !valid_ipfs_path(l) ==> r == Err::<(), ParseError>(
                        ParseError::InvalidIpfsPath,
                    ) && *final(self) == *old(self)
                },
                None => r is Ok && *final(self) == *old(self),
            },
    {
        match logo {
            Some(l) => match IpfsPath::parse(l.as_str()) {
                Ok(p) => {
                    self.logo = Some(p);
                    Ok(())
                },
                Err(e) => Err(e),
            },
            None => Ok(()),
        }
    }
}

/// Mathematical shape of a ledger-confirmed definition: a request's data
/// plus the owner the ledger assigned.
pub ghost struct AssetDefinitionView {
    pub id: AssetDefinitionIdView,
    pub asset_type: AssetType,
    pub mintable: Mintable,
    pub logo: Option<Seq<char>>,
    pub owned_by: AccountIdView,
}

/// An asset definition the ledger has confirmed. Unlike a registration
/// request it always carries `owned_by`; and it is never built directly
/// from fields — it only mirrors a committed registration, because
/// ownership is assigned by the ledger, not chosen by the client.
#[derive(Clone, Debug)]
pub struct AssetDefinition {
    id: AssetDefinitionId,
    asset_type: AssetType,
    mintable: Mintable,
    logo: Option<IpfsPath>,
    owned_by: AccountId,
}

impl View for AssetDefinition {
    type V = AssetDefinitionView;

    closed spec fn view(&self) -> AssetDefinitionView {
        AssetDefinitionView {
            id: self.id@,
            asset_type: self.asset_type,
            mintable: self.mintable,
            logo: match self.logo {
                Some(p) => Some(p@),
                None => None,
            },
            owned_by: self.owned_by@,
        }
    }
}

impl AssetDefinition {
    /// Mirror a definition the ledger has committed: the registered
    /// request's data, with the owner the ledger assigned.
    pub fn mirror(request: NewAssetDefinition, owned_by: AccountId) -> (r: AssetDefinition)
        ensures
            r@ == (AssetDefinitionView {
                id: request@.id,
                asset_type: request@.asset_type,
                mintable: request@.mintable,
                logo: request@.logo,
                owned_by: owned_by@,
            }),
    {
        AssetDefinition {
            id: request.id,
            asset_type: request.asset_type,
            mintable: request.mintable,
            logo: request.logo,
            owned_by,
        }
    }

    /// The definition's identifier.
    pub fn id(&self) -> (r: &AssetDefinitionId)
        ensures
            r@ == self@.id,
    {
        &self.id
    }

    /// The kind of value assets of this definition hold.
    pub fn asset_type(&self) -> (r: AssetType)
        ensures
            r == self@.asset_type,
    {
        self.asset_type
    }

    /// The mint policy chosen at registration, exactly as recorded; reading
    /// it performs no enforcement.
    pub fn mintable(&self) -> (r: Mintable)
        ensures
            r == self@.mintable,
    {
        self.mintable
    }

    /// The logo path, if one was registered.
    pub fn logo(&self) -> (r: Option<&str>)
        ensures
            match self@.logo {
                Some(l) => r matches Some(t) && t@ == l,
                None => r is None,
            },
    {
        match &self.logo {
            Some(p) => Some(p.as_str()),
            None => None,
        }
    }

    /// The account the ledger assigned as owner; every confirmed definition
    /// has one.
    pub fn owned_by(&self) -> (r: &AccountId)
        ensures
            r@ == self@.owned_by,
    {
        &self.owned_by
    }
}

} // verus!
