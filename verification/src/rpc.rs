//! Domain-level values and decisions behind the RPC adapter.
//!
//! The adapter itself is an asynchronous facade over one transport handle and
//! lives outside the verified library; every decision it makes once a
//! transport reply is in hand is a plain function here, stated and proved
//! over plain values.

use vstd::prelude::*;

use crate::errors::ChainError;

verus! {

/// The finality tier a read states explicitly; mixing tiers silently is
/// forbidden, so every adapter operation names the tier it applies.
#[derive(Clone, Copy, Debug, PartialEq, Eq, Structural)]
pub enum CommitmentLevel {
    /// The loosest tier: the node has processed the block, which may still be
    /// abandoned.
    Processed,
    /// The strictest tier: the block is finalized and will not be rolled
    /// back.
    Finalized,
}

/// A read-only snapshot of one ledger account.
#[derive(Clone, Debug, PartialEq, Eq)]
pub struct Account {
    /// The account's native-token balance, in the ledger's 64-bit width.
    pub lamports: u64,
    /// The account's opaque data.
    pub data: Vec<u8>,
    /// The address of the program that owns the account, as raw bytes.
    pub owner: Vec<u8>,
    /// Whether the account holds an executable program.
    pub executable: bool,
    /// The epoch at which the account next owes rent.
    pub rent_epoch: u64,
}

/// What `normalize_transport_result` returns, as a spec-level function.
pub open spec fn transport_normalization<T>(reply: Result<T, String>) -> Result<T, ChainError> {
    match reply {
        Ok(v) => Ok(v),
        Err(m) => Err(ChainError::Transport(m)),
    }
}

/// What `require_account` returns, as a spec-level function.
pub open spec fn required_account_outcome(account: Option<Account>) -> Result<
    Account,
    ChainError,
> {
    match account {
        Some(a) => Ok(a),
        None => Err(ChainError::NotFound),
    }
}

/// Normalizes one transport reply: a value passes through unchanged, and a
/// transport fault becomes the one shared transport-failure kind, carrying
/// the transport's rendering of the fault.
pub fn normalize_transport_result<T>(reply: Result<T, String>) -> (r: Result<T, ChainError>)
    ensures
        r == transport_normalization(reply),
        reply matches Ok(v) ==> r == Ok::<T, ChainError>(v),
        reply matches Err(m) ==> r == Err::<T, ChainError>(ChainError::Transport(m)),
{
    match reply {
        Ok(v) => Ok(v),
        Err(m) => Err(ChainError::Transport(m)),
    }
}

/// Turns an optional account into a required one: absence becomes the
/// not-found failure, which is distinct from a transport failure. The
/// "possible" lookup hands its optional value to the caller unchanged; this
/// is the step that the "required" lookup adds on top of it.
pub fn require_account(account: Option<Account>) -> (r: Result<Account, ChainError>)
    ensures
        r == required_account_outcome(account),
        account matches Some(a) ==> r == Ok::<Account, ChainError>(a),
        account is None ==> r == Err::<Account, ChainError>(ChainError::NotFound),
{
    match account {
        Some(a) => Ok(a),
        None => Err(ChainError::NotFound),
    }
}

/// An account that is absent at the finalized tier is a normal result of the
/// "possible" lookup and at the same time a not-found failure of the
/// "required" lookup built on it: the two lookups disagree exactly on the
/// absent case, and neither turns absence into a transport failure.
pub proof fn lemma_absent_account_is_not_found(account: Option<Account>)
    ensures
        account is None ==> !(transport_normalization::<Option<Account>>(Ok(account)) is Err),
        account is None ==> required_account_outcome(account) == Err::<Account, ChainError>(
            ChainError::NotFound,
        ),
        account matches Some(a) ==> required_account_outcome(account) == Ok::<Account, ChainError>(
            a,
        ),
{
}

} // verus!
