use vstd::prelude::*;

verus! {

/// The kinds of failure a caller can tell apart.
#[derive(Debug, Clone, Copy, PartialEq, Eq, Structural)]
pub enum BubblegumError {
    /// Signing-key material that is malformed or of the wrong length.
    InvalidKeyPair,
    /// An encoded address or digest that does not decode to 32 bytes.
    InvalidAddress,
    /// A (depth, buffer) pair outside the supported table.
    InvalidConfiguration { max_depth: u32, max_buffer_size: u32 },
    /// Leaf metadata that cannot be used, and why.
    InvalidMetadata { problem: MetadataProblem },
    /// Any failure contacting the ledger endpoint.
    NetworkError,
    /// The instruction encoder rejected an incomplete argument set.
    InstructionBuildError,
    /// The transaction could not be encoded.
    SerializationError,
}

/// Why leaf metadata was refused.
#[derive(Debug, Clone, Copy, PartialEq, Eq, Structural)]
pub enum MetadataProblem {
    /// The address of the creator at this position does not parse.
    CreatorAddress { index: u64 },
    /// The creators' shares do not sum to exactly 100.
    ShareTotal,
    /// The collection key does not parse.
    CollectionKey,
}

} // verus!
