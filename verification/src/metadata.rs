//! Structured key–value metadata, the opaque store a `Store`-typed asset
//! holds. Construction alongside a definition and readback through an
//! asset are both deliberately unsupported in the current contract; the
//! concrete representation here — ordered string pairs — is an explicit
//! extension point.
use vstd::prelude::*;

verus! {

/// An ordered store of string keys and string values.
#[derive(Clone, Debug)]
pub struct Metadata {
    entries: Vec<(String, String)>,
}

impl View for Metadata {
    type V = Seq<(String, String)>;

    closed spec fn view(&self) -> Seq<(String, String)> {
        self.entries@
    }
}

impl Metadata {
    /// The store with no entries.
    pub fn empty() -> (r: Metadata)
        ensures
            r@ == Seq::<(String, String)>::empty(),
    {
        let entries: Vec<(String, String)> = Vec::new();
        let r = Metadata { entries };
        proof {
            assert(r@ =~= Seq::<(String, String)>::empty());
        }
        r
    }

    /// How many entries the store holds.
    pub fn len(&self) -> (r: usize)
        ensures
            r == self@.len(),
    {
        self.entries.len()
    }
}

} // verus!
