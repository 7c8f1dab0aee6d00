//! A concrete balance: an asset identifier paired with its value, which is
//! either an exact decimal or an opaque structured store.
use vstd::prelude::*;

use crate::errors::{UnsupportedOperationError, ValueError};
use crate::ids::AssetId;
use crate::metadata::Metadata;
use crate::numeric::Numeric;

verus! {

/// The value a balance holds: an exact decimal (never binary floating
/// point), or a structured store. Every consumer handles both variants;
/// the store read path answers with an explicit "not yet supported" result
/// rather than failing at run time.
#[derive(Clone, Debug)]
pub enum AssetValue {
    Numeric(Numeric),
    Store(Metadata),
}

impl AssetValue {
    /// An unsigned 32-bit integer as an exact decimal with scale zero.
    pub fn from_u32(n: u32) -> (r: AssetValue)
        ensures
            r == AssetValue::Numeric(Numeric { mantissa: n as u128, scale: 0 }),
    {
        AssetValue::Numeric(Numeric::from_u32(n))
    }

    /// An unsigned 128-bit integer as an exact decimal with scale zero.
    pub fn from_u128(n: u128) -> (r: AssetValue)
        ensures
            r == AssetValue::Numeric(Numeric { mantissa: n, scale: 0 }),
    {
        AssetValue::Numeric(Numeric::from_u128(n))
    }
}

/// One concrete balance: which asset, held by whom, and how much (or what
/// structured data). The consistency of the value's variant with the
/// definition's `AssetType` is the surrounding ledger's to enforce, not
/// this type's alone.
#[derive(Clone, Debug)]
pub struct Asset {
    pub id: AssetId,
    pub value: AssetValue,
}

impl Asset {
    /// Pair an asset identifier with its value.
    pub fn new(id: AssetId, value: AssetValue) -> (r: Asset)
        ensures
            r.id == id,
            r.value == value,
    {
        Asset { id, value }
    }

    /// Read the value through the numeric-only path: the exact decimal, or
    /// the value error a `Store`-typed value cannot pass this way.
    pub fn numeric_value(&self) -> (r: Result<Numeric, ValueError>)
        ensures
            r == (match self.value {
                AssetValue::Numeric(n) => Ok::<Numeric, ValueError>(n),
                AssetValue::Store(_) => Err::<Numeric, ValueError>(ValueError::StoreAccess),
            }),
    {
        match &self.value {
            AssetValue::Numeric(n) => Ok(*n),
            AssetValue::Store(_) => Err(ValueError::StoreAccess),
        }
    }

    /// Read a `Store`-typed value's raw structured data: deliberately not
    /// yet implemented, and signaled as such on every call — callers must
    /// not assume it succeeds.
    pub fn store_value(&self) -> (r: Result<&Metadata, UnsupportedOperationError>)
        ensures
            r matches Err(e) && e == UnsupportedOperationError::StoreReadback,
    {
        Err(UnsupportedOperationError::StoreReadback)
    }

    /// Replace the value wholesale; the identifier is untouched.
    pub fn set_value(&mut self, value: AssetValue)
        ensures
            final(self).id == old(self).id,
            final(self).value == value,
    {
        self.value = value;
    }
}

} // verus!
