//! Chain-adapter core for a cross-chain message relay and indexing pipeline.
//!
//! The crate normalizes one ledger's RPC semantics into a uniform, verified
//! surface: error normalization, account lookups, numeric widening and
//! narrowing, decoding of dry-run ("simulate") return payloads, and the
//! message-indexer capability interface together with its deterministic,
//! call-recording test double.

mod codec;
mod errors;
mod indexer;
mod numeric;
mod rpc;
mod simulation;

pub use codec::AccountMeta;
pub use codec::decode_account_metas;
pub use codec::encode_account_metas;
pub use codec::lemma_encoded_meta_list_wf;
pub use codec::lemma_meta_list_encoding_injective;
pub use errors::ChainError;
pub use indexer::AbacusMessage;
pub use indexer::Indexer;
pub use indexer::LogMeta;
pub use indexer::MailboxIndexer;
pub use indexer::MockAbacusIndexer;
pub use indexer::lemma_fetch_idempotent;
pub use indexer::lemma_finalized_height_idempotent;
pub use numeric::U256;
pub use numeric::narrow_block_height;
pub use numeric::widen_balance;
pub use rpc::Account;
pub use rpc::CommitmentLevel;
pub use rpc::lemma_absent_account_is_not_found;
pub use rpc::normalize_transport_result;
pub use rpc::require_account;
pub use simulation::ReturnDataEncoding;
pub use simulation::ReturnPayload;
pub use simulation::account_metas_from_return;
pub use simulation::decode_account_meta_bytes;
pub use simulation::decode_account_meta_return;
pub use simulation::decode_return_payload;
pub use simulation::decode_simulation_return;
pub use simulation::encode_account_meta_return;
