//! Reading records as they were stored.
//!
//! A stored record is the canonical binary form of its fields, one after
//! the other. Fields that were added to a record later stand at its end, and
//! records written before they existed simply stop earlier. Reading such a
//! record gives the later fields their default; bytes that are present but
//! wrong still fail the whole record.

use crate::block::Reward;
use crate::instruction::{InnerInstructions, InnerInstructionsView};
use crate::meta::{TransactionStatusMeta, TransactionStatusMetaView};
use crate::model::CompiledInstruction;
use bincode::Options;
use solana_sdk::deserialize_utils::default_on_eof;
use solana_sdk::short_vec::ShortVec;
use solana_sdk::transaction::TransactionError;
use vstd::prelude::*;

verus! {

/// The fields that every stored outcome holds: status, fee, balances before
/// and balances after.
pub type StoredHead = (Result<(), TransactionError>, u64, Vec<u64>, Vec<u64>);

/// The stored shape of a list of inner instruction groups.
type StoredInner = Vec<(u8, Vec<(u8, ShortVec<u8>, ShortVec<u8>)>)>;

/// Mathematical value of a [`Reward`].
pub struct RewardView {
    pub pubkey: Seq<char>,
    pub lamports: i64,
    pub post_balance: u64,
}

impl View for Reward {
    type V = RewardView;

    open spec fn view(&self) -> RewardView {
        RewardView {
            pubkey: self.pubkey@,
            lamports: self.lamports,
            post_balance: self.post_balance,
        }
    }
}

impl DeepView for Reward {
    type V = RewardView;

    open spec fn deep_view(&self) -> RewardView {
        self@
    }
}

/// What `bincode` reads from the front of `bytes` as status, fee, balances
/// before and balances after, or `None` where it reports an error.
pub uninterp spec fn stored_head(bytes: Seq<u8>) -> Option<
    (Result<(), TransactionError>, u64, Seq<u64>, Seq<u64>),
>;

/// What `default_on_eof` reads as the inner instructions that follow the
/// head of a stored outcome: the stored value, or absent where
/// `default_on_eof` substitutes the default at the end of the input; `None`
/// where the head is in error or `default_on_eof` reports an error.
pub uninterp spec fn stored_inner_instructions(bytes: Seq<u8>) -> Option<
    Option<Seq<InnerInstructionsView>>,
>;

/// What `default_on_eof` reads as the log messages that follow the inner
/// instructions of a stored outcome: the stored value, or absent where
/// `default_on_eof` substitutes the default at the end of the input; `None`
/// where anything before them is in error or `default_on_eof` reports an
/// error.
pub uninterp spec fn stored_log_messages(bytes: Seq<u8>) -> Option<Option<Seq<Seq<char>>>>;

/// What `bincode` and `default_on_eof` read from the front of `bytes` as a
/// reward, or `None` where they report an error.
pub uninterp spec fn stored_reward(bytes: Seq<u8>) -> Option<RewardView>;

/// Reads status, fee and balances with `bincode`, in its fixed-width form
/// that lets bytes follow. Trusted: the result is a function of the bytes
/// alone; an error of the crate is reported as `None`.
#[verifier::external_body]
fn read_head(bytes: &[u8]) -> (head: Option<StoredHead>)
    ensures
        match head {
            Some((status, fee, pre_balances, post_balances)) => stored_head(bytes@) == Some(
                (status, fee, pre_balances@, post_balances@),
            ),
            None => stored_head(bytes@) is None,
        },
{
    let options = bincode::options().with_fixint_encoding().allow_trailing_bytes();
    let mut d = bincode::Deserializer::from_slice(bytes, options);
    serde::de::Deserialize::deserialize(&mut d).ok()
}

/// Reads past the head with `bincode`, then the inner instructions with
/// `default_on_eof` of the ledger crate. Trusted: the result is a function
/// of the bytes alone; an error that `default_on_eof` lets through is
/// reported as `None`.
#[verifier::external_body]
fn read_inner_instructions(bytes: &[u8]) -> (inner: Option<Option<Vec<InnerInstructions>>>)
    ensures
        inner.deep_view() == stored_inner_instructions(bytes@),
{
    let options = bincode::options().with_fixint_encoding().allow_trailing_bytes();
    let mut d = bincode::Deserializer::from_slice(bytes, options);
    let _: StoredHead = serde::de::Deserialize::deserialize(&mut d).ok()?;
    let groups: Option<StoredInner> = default_on_eof(&mut d).ok()?;
    Some(groups.map(|groups| groups.into_iter().map(|(index, list)| InnerInstructions {
        index,
        instructions: list.into_iter().map(|(program_id_index, accounts, data)| {
            CompiledInstruction { program_id_index, accounts: accounts.0, data: data.0 }
        }).collect(),
    }).collect()))
}

/// Reads past the head with `bincode` and past the inner instructions with
/// `default_on_eof`, then the log messages with `default_on_eof`. Trusted:
/// the result is a function of the bytes alone; an error that
/// `default_on_eof` lets through is reported as `None`.
#[verifier::external_body]
fn read_log_messages(bytes: &[u8]) -> (messages: Option<Option<Vec<String>>>)
    ensures
        messages.deep_view() == stored_log_messages(bytes@),
{
    let options = bincode::options().with_fixint_encoding().allow_trailing_bytes();
    let mut d = bincode::Deserializer::from_slice(bytes, options);
    let _: StoredHead = serde::de::Deserialize::deserialize(&mut d).ok()?;
    let _: Option<StoredInner> = default_on_eof(&mut d).ok()?;
    default_on_eof(&mut d).ok()
}

/// Reads address and amount with `bincode`, then the balance with
/// `default_on_eof`. Trusted: the result is a function of the bytes alone;
/// an error is reported as `None`.
#[verifier::external_body]
fn read_reward(bytes: &[u8]) -> (reward: Option<Reward>)
    ensures
        reward.deep_view() == stored_reward(bytes@),
{
    let options = bincode::options().with_fixint_encoding().allow_trailing_bytes();
    let mut d = bincode::Deserializer::from_slice(bytes, options);
    let (pubkey, lamports): (String, i64) = serde::de::Deserialize::deserialize(&mut d).ok()?;
    let post_balance: u64 = default_on_eof(&mut d).ok()?;
    Some(Reward { pubkey, lamports, post_balance })
}

/// The outcome that a stored record holds: the head with the two optional
/// fields as read, and nothing where any of the three is in error.
pub open spec fn assembled(
    head: Option<(Result<(), TransactionError>, u64, Seq<u64>, Seq<u64>)>,
    inner_instructions: Option<Option<Seq<InnerInstructionsView>>>,
    log_messages: Option<Option<Seq<Seq<char>>>>,
) -> Option<TransactionStatusMetaView> {
    match (head, inner_instructions, log_messages) {
        (Some(head), Some(inner_instructions), Some(log_messages)) => Some(
            TransactionStatusMetaView {
                status: head.0,
                fee: head.1,
                pre_balances: head.2,
                post_balances: head.3,
                inner_instructions,
                log_messages,
            },
        ),
        _ => None,
    }
}

/// The outcome that the stored record `bytes` holds.
pub open spec fn stored_meta(bytes: Seq<u8>) -> Option<TransactionStatusMetaView> {
    assembled(stored_head(bytes), stored_inner_instructions(bytes), stored_log_messages(bytes))
}

/// The head of a stored outcome with its lists as sequences.
pub open spec fn head_view(head: Option<StoredHead>) -> Option<
    (Result<(), TransactionError>, u64, Seq<u64>, Seq<u64>),
> {
    match head {
        Some((status, fee, pre_balances, post_balances)) => Some(
            (status, fee, pre_balances@, post_balances@),
        ),
        None => None,
    }
}

impl TransactionStatusMeta {
    /// Puts the parts of a stored outcome together. The record is in error
    /// where any part is; an optional field that was read as absent stays
    /// absent.
    pub fn assemble(
        head: Option<StoredHead>,
        inner_instructions: Option<Option<Vec<InnerInstructions>>>,
        log_messages: Option<Option<Vec<String>>>,
    ) -> (meta: Option<TransactionStatusMeta>)
        ensures
            meta.deep_view() == assembled(
                head_view(head),
                inner_instructions.deep_view(),
                log_messages.deep_view(),
            ),
    {
        match (head, inner_instructions, log_messages) {
            (
                Some((status, fee, pre_balances, post_balances)),
                Some(inner_instructions),
                Some(log_messages),
            ) => Some(
                TransactionStatusMeta {
                    status,
                    fee,
                    pre_balances,
                    post_balances,
                    inner_instructions,
                    log_messages,
                },
            ),
            _ => None,
        }
    }

    /// Reads a stored outcome. A record that ends before its inner
    /// instructions or before its log messages is read with the missing
    /// fields absent; a record that ends inside its status, fee or
    /// balances is not read at all. What else counts as the end of the
    /// input and what as an error is decided by `default_on_eof`.
    pub fn from_stored(bytes: &[u8]) -> (meta: Option<TransactionStatusMeta>)
        ensures
            meta.deep_view() == stored_meta(bytes@),
    {
        TransactionStatusMeta::assemble(
            read_head(bytes),
            read_inner_instructions(bytes),
            read_log_messages(bytes),
        )
    }
}

impl Reward {
    /// Reads a stored reward. A record that ends before the balance after
    /// the payment is read with a balance of zero.
    pub fn from_stored(bytes: &[u8]) -> (reward: Option<Reward>)
        ensures
            reward.deep_view() == stored_reward(bytes@),
    {
        read_reward(bytes)
    }
}

} // verus!
