//! Confirmed blocks and transactions with their recorded outcomes, and
//! their encodings.

use crate::commitment::Slot;
use crate::encoding::{
    decoded, encodable, encode_borrowed, encoded, EncodedTransaction, EncodedTransactionView,
    UiTransactionEncoding,
};
use crate::meta::{
    show_meta, ui_meta, TransactionStatusMeta, TransactionStatusMetaView, UiTransactionStatusMeta,
    UiTransactionStatusMetaView,
};
use crate::model::{Transaction, TransactionView};
use crate::parse_instruction::{ParserRegistry, ProgramParserView};
use crate::parse_system::builtin_parsers;
use vstd::prelude::*;

verus! {

/// Seconds since the Unix epoch.
pub type UnixTimestamp = i64;

/// A payment to an account at the end of an epoch.
#[derive(Clone, Debug, PartialEq, Eq)]
pub struct Reward {
    pub pubkey: String,
    pub lamports: i64,
    /// Balance of the account after the payment.
    pub post_balance: u64,
}

pub type Rewards = Vec<Reward>;

/// A transaction with its recorded outcome, if there is one.
#[derive(Clone, Debug, PartialEq)]
pub struct TransactionWithStatusMeta {
    pub transaction: Transaction,
    pub meta: Option<TransactionStatusMeta>,
}

/// Mathematical value of a [`TransactionWithStatusMeta`].
pub struct TransactionWithStatusMetaView {
    pub transaction: TransactionView,
    pub meta: Option<TransactionStatusMetaView>,
}

impl View for TransactionWithStatusMeta {
    type V = TransactionWithStatusMetaView;

    open spec fn view(&self) -> TransactionWithStatusMetaView {
        TransactionWithStatusMetaView {
            transaction: self.transaction@,
            meta: self.meta.deep_view(),
        }
    }
}

impl DeepView for TransactionWithStatusMeta {
    type V = TransactionWithStatusMetaView;

    open spec fn deep_view(&self) -> TransactionWithStatusMetaView {
        self@
    }
}

impl TransactionWithStatusMetaView {
    /// The preconditions of encoding the transaction and its outcome.
    pub open spec fn encodable(self, encoding: UiTransactionEncoding) -> bool {
        &&& encodable(self.transaction, encoding)
        &&& (encoding == UiTransactionEncoding::JsonParsed && self.meta is Some)
            ==> self.meta->0.indices_below(self.transaction.message.account_keys.len())
    }
}

/// An encoded transaction with its outcome as shown to clients.
#[derive(Clone, Debug, PartialEq)]
pub struct EncodedTransactionWithStatusMeta {
    pub transaction: EncodedTransaction,
    pub meta: Option<UiTransactionStatusMeta>,
}

/// Mathematical value of an [`EncodedTransactionWithStatusMeta`].
pub struct EncodedTransactionWithStatusMetaView {
    pub transaction: EncodedTransactionView,
    pub meta: Option<UiTransactionStatusMetaView>,
}

impl View for EncodedTransactionWithStatusMeta {
    type V = EncodedTransactionWithStatusMetaView;

    open spec fn view(&self) -> EncodedTransactionWithStatusMetaView {
        EncodedTransactionWithStatusMetaView {
            transaction: self.transaction@,
            meta: self.meta.deep_view(),
        }
    }
}

impl DeepView for EncodedTransactionWithStatusMeta {
    type V = EncodedTransactionWithStatusMetaView;

    open spec fn deep_view(&self) -> EncodedTransactionWithStatusMetaView {
        self@
    }
}

/// The encoding of a transaction together with its outcome: the outcome is
/// shown against the account list of the transaction, with inner
/// instructions by address exactly for the parsed display form.
pub open spec fn encoded_with_meta(
    parsers: Seq<ProgramParserView>,
    entry: TransactionWithStatusMetaView,
    encoding: UiTransactionEncoding,
) -> EncodedTransactionWithStatusMetaView {
    EncodedTransactionWithStatusMetaView {
        transaction: encoded(parsers, entry.transaction, encoding),
        meta: match entry.meta {
            None => None,
            Some(meta) => Some(
                ui_meta(
                    parsers,
                    meta,
                    entry.transaction.message.account_keys,
                    encoding == UiTransactionEncoding::JsonParsed,
                ),
            ),
        },
    }
}

fn encode_entry(
    entry: &TransactionWithStatusMeta,
    encoding: UiTransactionEncoding,
    registry: &ParserRegistry,
) -> (result: EncodedTransactionWithStatusMeta)
    requires
        entry@.encodable(encoding),
    ensures
        result@ == encoded_with_meta(registry@, entry@, encoding),
        encoding.is_binary() ==> decoded(result@.transaction) == Some(entry@.transaction),
{
    let parse = matches!(encoding, UiTransactionEncoding::JsonParsed);
    let meta = match &entry.meta {
        None => None,
        Some(meta) => Some(
            show_meta(meta, &entry.transaction.message.account_keys, registry, parse),
        ),
    };
    EncodedTransactionWithStatusMeta {
        transaction: encode_borrowed(&entry.transaction, encoding, registry),
        meta,
    }
}

impl TransactionWithStatusMeta {
    /// Whether the transaction and its outcome meet the preconditions of
    /// encoding them in format `encoding`.
    pub fn can_encode(&self, encoding: UiTransactionEncoding) -> (yes: bool)
        ensures
            yes == self@.encodable(encoding),
    {
        if !EncodedTransaction::can_encode(&self.transaction, encoding) {
            return false;
        }
        match (encoding, &self.meta) {
            (UiTransactionEncoding::JsonParsed, Some(meta)) => meta.indices_below(
                self.transaction.message.account_keys.len(),
            ),
            _ => true,
        }
    }

    /// Encodes the transaction in format `encoding` and shows its outcome
    /// in the way that goes with the format.
    pub fn encode(self, encoding: UiTransactionEncoding) -> (result:
        EncodedTransactionWithStatusMeta)
        requires
            self@.encodable(encoding),
        ensures
            result@ == encoded_with_meta(builtin_parsers(), self@, encoding),
            encoding.is_binary() ==> decoded(result@.transaction) == Some(self@.transaction),
    {
        let registry = ParserRegistry::builtin();
        encode_entry(&self, encoding, &registry)
    }
}

/// A block with the transactions that it confirmed.
#[derive(Clone, Debug, PartialEq)]
pub struct ConfirmedBlock {
    pub previous_blockhash: String,
    pub blockhash: String,
    pub parent_slot: Slot,
    pub transactions: Vec<TransactionWithStatusMeta>,
    pub rewards: Rewards,
    pub block_time: Option<UnixTimestamp>,
}

/// A block with its transactions encoded.
#[derive(Debug, PartialEq)]
pub struct EncodedConfirmedBlock {
    pub previous_blockhash: String,
    pub blockhash: String,
    pub parent_slot: Slot,
    pub transactions: Vec<EncodedTransactionWithStatusMeta>,
    pub rewards: Rewards,
    pub block_time: Option<UnixTimestamp>,
}

impl ConfirmedBlock {
    /// Every transaction of the block meets the preconditions of encoding.
    pub open spec fn encodable(&self, encoding: UiTransactionEncoding) -> bool {
        forall|i: int|
            0 <= i < self.transactions.len() ==> (#[trigger] self.transactions[i])@.encodable(
                encoding,
            )
    }

    /// Whether every transaction of the block meets the preconditions of
    /// encoding it in format `encoding`.
    pub fn can_encode(&self, encoding: UiTransactionEncoding) -> (yes: bool)
        ensures
            yes == self.encodable(encoding),
    {
        let mut i: usize = 0;
        while i < self.transactions.len()
            invariant
                i <= self.transactions.len(),
                forall|j: int|
                    0 <= j < i ==> (#[trigger] self.transactions[j])@.encodable(encoding),
            decreases self.transactions.len() - i,
        {
            if !self.transactions[i].can_encode(encoding) {
                return false;
            }
            i += 1;
        }
        true
    }

    /// Encodes every transaction of the block in format `encoding`, in
    /// order; everything else in the block stays as it is.
    pub fn encode(self, encoding: UiTransactionEncoding) -> (result: EncodedConfirmedBlock)
        requires
            self.encodable(encoding),
        ensures
            result.previous_blockhash == self.previous_blockhash,
            result.blockhash == self.blockhash,
            result.parent_slot == self.parent_slot,
            result.rewards == self.rewards,
            result.block_time == self.block_time,
            result.transactions.deep_view() == Seq::new(
                self.transactions.len() as nat,
                |i: int| encoded_with_meta(builtin_parsers(), self.transactions[i]@, encoding),
            ),
            encoding.is_binary() ==> forall|i: int|
                0 <= i < self.transactions.len() ==> decoded(
                    (#[trigger] result.transactions[i])@.transaction,
                ) == Some(self.transactions[i]@.transaction),
    {
        let registry = ParserRegistry::builtin();
        let mut transactions: Vec<EncodedTransactionWithStatusMeta> = Vec::new();
        let mut i: usize = 0;
        while i < self.transactions.len()
            invariant
                i <= self.transactions.len(),
                transactions.len() == i,
                registry@ == builtin_parsers(),
                self.encodable(encoding),
                forall|j: int|
                    0 <= j < i ==> (#[trigger] transactions[j])@ == encoded_with_meta(
                        builtin_parsers(),
                        self.transactions[j]@,
                        encoding,
                    ),
                encoding.is_binary() ==> forall|j: int|
                    0 <= j < i ==> decoded((#[trigger] transactions[j])@.transaction) == Some(
                        self.transactions[j]@.transaction,
                    ),
            decreases self.transactions.len() - i,
        {
            transactions.push(encode_entry(&self.transactions[i], encoding, &registry));
            i += 1;
        }
        assert(transactions.deep_view() =~= Seq::new(
            self.transactions.len() as nat,
            |i: int| encoded_with_meta(builtin_parsers(), self.transactions[i]@, encoding),
        ));
        EncodedConfirmedBlock {
            previous_blockhash: self.previous_blockhash,
            blockhash: self.blockhash,
            parent_slot: self.parent_slot,
            transactions,
            rewards: self.rewards,
            block_time: self.block_time,
        }
    }
}

/// A confirmed transaction with the slot of its block.
#[derive(Debug, PartialEq)]
pub struct ConfirmedTransaction {
    pub slot: Slot,
    pub transaction: TransactionWithStatusMeta,
}

/// A confirmed transaction, encoded, with the slot of its block.
#[derive(Debug, PartialEq)]
pub struct EncodedConfirmedTransaction {
    pub slot: Slot,
    pub transaction: EncodedTransactionWithStatusMeta,
}

impl ConfirmedTransaction {
    /// Encodes the transaction in format `encoding`; the slot stays as it
    /// is.
    pub fn encode(self, encoding: UiTransactionEncoding) -> (result: EncodedConfirmedTransaction)
        requires
            self.transaction@.encodable(encoding),
        ensures
            result.slot == self.slot,
            result.transaction@ == encoded_with_meta(
                builtin_parsers(),
                self.transaction@,
                encoding,
            ),
            encoding.is_binary() ==> decoded(result.transaction@.transaction) == Some(
                self.transaction@.transaction,
            ),
    {
        EncodedConfirmedTransaction {
            slot: self.slot,
            transaction: self.transaction.encode(encoding),
        }
    }
}

} // verus!
