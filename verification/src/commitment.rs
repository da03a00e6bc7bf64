//! How final a transaction is, and whether that meets what a client asked
//! for.

use crate::model::Signature;
use solana_sdk::transaction::TransactionError;
use vstd::prelude::*;

verus! {

/// Position of a block in the ledger.
pub type Slot = u64;

/// How far a block has to be confirmed before a client trusts it.
#[derive(Clone, Copy, Debug, PartialEq, Eq, Structural)]
pub enum CommitmentLevel {
    /// Finalized: confirmed to the maximum by the cluster.
    Max,
    /// Seen on the heaviest fork.
    Recent,
    /// Finalized on this node.
    Root,
    /// Confirmed once by the cluster.
    Single,
    /// Voted on by most of the cluster.
    SingleGossip,
}

/// The commitment level that a client asks for.
#[derive(Clone, Copy, Debug, PartialEq, Eq, Structural)]
pub struct CommitmentConfig {
    pub commitment: CommitmentLevel,
}

impl Default for CommitmentConfig {
    /// The finalized level.
    fn default() -> (config: CommitmentConfig)
        ensures
            config.commitment == CommitmentLevel::Max,
    {
        CommitmentConfig { commitment: CommitmentLevel::Max }
    }
}

impl CommitmentConfig {
    pub fn recent() -> (config: CommitmentConfig)
        ensures
            config.commitment == CommitmentLevel::Recent,
    {
        CommitmentConfig { commitment: CommitmentLevel::Recent }
    }

    pub fn max() -> (config: CommitmentConfig)
        ensures
            config.commitment == CommitmentLevel::Max,
    {
        CommitmentConfig { commitment: CommitmentLevel::Max }
    }

    pub fn root() -> (config: CommitmentConfig)
        ensures
            config.commitment == CommitmentLevel::Root,
    {
        CommitmentConfig { commitment: CommitmentLevel::Root }
    }

    pub fn single() -> (config: CommitmentConfig)
        ensures
            config.commitment == CommitmentLevel::Single,
    {
        CommitmentConfig { commitment: CommitmentLevel::Single }
    }

    pub fn single_gossip() -> (config: CommitmentConfig)
        ensures
            config.commitment == CommitmentLevel::SingleGossip,
    {
        CommitmentConfig { commitment: CommitmentLevel::SingleGossip }
    }
}

/// Whether a transaction with the given confirmation count meets a
/// commitment level. The finalized level is met once the transaction is
/// rooted, which shows as an absent count. The recent level is met by every
/// transaction that has a status at all, whatever its count. No other level
/// is ever met.
pub open spec fn satisfies(confirmations: Option<usize>, commitment: CommitmentLevel) -> bool {
    (commitment == CommitmentLevel::Max && confirmations is None) || commitment
        == CommitmentLevel::Recent
}

/// The confirmation state of a transaction.
#[derive(Clone, Debug, PartialEq)]
pub struct TransactionStatus {
    pub slot: Slot,
    /// Number of confirmations; absent once the transaction is rooted.
    pub confirmations: Option<usize>,
    /// Kept for older clients; mirrors `err`.
    pub status: Result<(), TransactionError>,
    pub err: Option<TransactionError>,
}

impl TransactionStatus {
    /// Whether the transaction is as final as `commitment_config` asks.
    pub fn satisfies_commitment(&self, commitment_config: CommitmentConfig) -> (met: bool)
        ensures
            met == satisfies(self.confirmations, commitment_config.commitment),
    {
        match commitment_config.commitment {
            CommitmentLevel::Max => self.confirmations.is_none(),
            CommitmentLevel::Recent => true,
            _ => false,
        }
    }
}

/// A rooted transaction meets the finalized level, a transaction with a
/// confirmation count does not, and both meet the recent level.
pub proof fn lemma_commitment_levels(confirmations: Option<usize>)
    ensures
        satisfies(confirmations, CommitmentLevel::Recent),
        satisfies(confirmations, CommitmentLevel::Max) <==> confirmations is None,
{
}

/// The status of a confirmed transaction, found by its signature.
#[derive(Clone, Debug, PartialEq)]
pub struct ConfirmedTransactionStatusWithSignature {
    pub signature: Signature,
    pub slot: Slot,
    pub err: Option<TransactionError>,
    pub memo: Option<String>,
}

} // verus!
