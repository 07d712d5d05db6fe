use vstd::prelude::*;

verus! {

/// Error taxonomy of the registry core.
///
/// Every entry point either returns a fully valid result or exactly one
/// of these values; there is no partial success and no local retry.
#[derive(Clone, Copy, Debug, PartialEq, Eq, Structural)]
pub enum VdrError {
    /// A malformed identifier, address or document shape, detected
    /// before any ledger interaction.
    Validation,
    /// The document cannot be serialised to its on-chain form.
    Encoding,
    /// Raw ledger bytes do not match the expected wire schema.
    Decoding,
    /// The ledger reported the identifier absent or deactivated.
    NotFound,
    /// A network-layer failure, propagated unmodified by the caller.
    Transport,
}

} // verus!
