//! Numeric conversions between ledger-native widths and the pipeline's types.
//!
//! Balances are widened losslessly from the ledger's 64-bit width into the
//! pipeline's 256-bit unsigned integer; block heights are narrowed from the
//! ledger's 64-bit count to the pipeline's 32-bit height, and the narrowing
//! reports a numeric-range failure instead of wrapping.

use vstd::prelude::*;

use crate::errors::ChainError;

verus! {

/// The pipeline's shared 256-bit unsigned integer, as four 64-bit limbs in
/// little-endian order.
#[derive(Clone, Copy, Debug, PartialEq, Eq, Structural)]
pub struct U256 {
    /// Bits 0 to 63.
    pub limb0: u64,
    /// Bits 64 to 127.
    pub limb1: u64,
    /// Bits 128 to 191.
    pub limb2: u64,
    /// Bits 192 to 255.
    pub limb3: u64,
}

impl U256 {
    /// The mathematical value of the four limbs.
    pub open spec fn value(self) -> nat {
        (self.limb0 + self.limb1 * 0x1_0000_0000_0000_0000
            + self.limb2 * 0x1_0000_0000_0000_0000_0000_0000_0000_0000
            + self.limb3
                * 0x1_0000_0000_0000_0000_0000_0000_0000_0000_0000_0000_0000_0000) as nat
    }

    /// Widens a 64-bit value; the widening never truncates.
    pub fn from_u64(v: u64) -> (r: Self)
        ensures
            r.value() == v,
    {
        U256 { limb0: v, limb1: 0, limb2: 0, limb3: 0 }
    }
}

/// Widens a ledger-native balance into the pipeline's shared numeric type,
/// losslessly.
pub fn widen_balance(balance: u64) -> (r: U256)
    ensures
        r.value() == balance,
{
    U256::from_u64(balance)
}

/// Narrows a ledger-native 64-bit block height to the pipeline's 32-bit
/// height type. A height beyond the 32-bit range is reported as a
/// numeric-range failure, never wrapped: an unrepresentable height would
/// invalidate every downstream block-range computation.
pub fn narrow_block_height(height: u64) -> (r: Result<u32, ChainError>)
    ensures
        height <= u32::MAX ==> r == Ok::<u32, ChainError>(height as u32),
        height > u32::MAX ==> r == Err::<u32, ChainError>(ChainError::NumericRange),
{
    if height <= u32::MAX as u64 {
        Ok(height as u32)
    } else {
        Err(ChainError::NumericRange)
    }
}

} // verus!
