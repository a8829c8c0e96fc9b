//! The shared error taxonomy of the adapter layer.
//!
//! Every adapter-specific failure is mapped into exactly one of these kinds,
//! so that the calling pipeline can branch on kind (retry on transport
//! failure, abort on decode failure) without knowing which ledger produced
//! the failure.

use vstd::prelude::*;

verus! {

/// One normalized failure of the adapter layer.
#[derive(Debug)]
pub enum ChainError {
    /// The RPC node could not be reached or reported a failure; the payload
    /// is the transport's own rendering of the fault.
    Transport(String),
    /// A queried account does not exist at the requested commitment level.
    NotFound,
    /// A simulation payload was present but could not be decoded; the
    /// payload describes what was malformed.
    Decode(String),
    /// A simulation payload declared an encoding tag other than the one
    /// supported variant.
    UnsupportedEncoding,
    /// A ledger-native value does not fit the pipeline's narrower
    /// representation.
    NumericRange,
}

impl ChainError {
    /// An exact copy of the error, payload included.
    pub fn duplicate(&self) -> (r: Self)
        ensures
            r == *self,
    {
        match self {
            ChainError::Transport(m) => ChainError::Transport(m.clone()),
            ChainError::NotFound => ChainError::NotFound,
            ChainError::Decode(m) => ChainError::Decode(m.clone()),
            ChainError::UnsupportedEncoding => ChainError::UnsupportedEncoding,
            ChainError::NumericRange => ChainError::NumericRange,
        }
    }

    /// True exactly on the transport kind; transport failures are the ones
    /// the calling pipeline treats as retryable.
    pub fn is_transport_failure(&self) -> (r: bool)
        ensures
            r == (self is Transport),
    {
        match self {
            ChainError::Transport(_) => true,
            _ => false,
        }
    }
}

} // verus!
