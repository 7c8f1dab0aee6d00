use vstd::prelude::*;

verus! {

/// A malformed identifier or path string. Every variant names the grammar
/// rule that the input broke; parsing fails atomically, so a caller may
/// correct the input and retry.
#[derive(Clone, Copy, Debug, PartialEq, Eq, Structural, Hash)]
pub enum ParseError {
    /// An identifier component (name, domain, signatory) was empty.
    EmptyComponent,
    /// An identifier component contained a reserved separator character.
    ReservedCharacter,
    /// A compound identifier string lacked its separator character.
    MissingSeparator,
    /// A logo string did not match the content-addressed path grammar.
    InvalidIpfsPath,
}

/// A numeric input that cannot be represented, an unrecognized input shape,
/// or an access to a `Store`-typed value through the numeric-only path.
#[derive(Clone, Copy, Debug, PartialEq, Eq, Structural, Hash)]
pub enum ValueError {
    /// A host float had no finite decimal representation.
    NotDecimal,
    /// An input of a shape outside the supported value domains.
    UnrecognizedInput,
    /// The numeric-only accessor was applied to a `Store`-typed value.
    StoreAccess,
}

/// An operation that is present in the interface but deliberately not yet
/// implemented; distinct from `ValueError` so a caller can tell "not
/// supported" apart from "bad input".
#[derive(Clone, Copy, Debug, PartialEq, Eq, Structural, Hash)]
pub enum UnsupportedOperationError {
    /// Construction of structured metadata alongside a definition.
    MetadataConstruction,
    /// Readback of a `Store`-typed value's raw structured data.
    StoreReadback,
}

/// Everything that can go wrong while building a registration request:
/// either an input string failed its grammar, or the request asked for an
/// operation this model does not yet support.
#[derive(Clone, Copy, Debug, PartialEq, Eq, Structural, Hash)]
pub enum DefinitionError {
    Parse(ParseError),
    Unsupported(UnsupportedOperationError),
}

} // verus!
