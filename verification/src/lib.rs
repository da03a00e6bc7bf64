//! Encodings of ledger transactions and of their execution status for
//! client-facing interfaces.

pub mod block;
pub mod commitment;
pub mod encoding;
pub mod instruction;
pub mod laws;
pub mod meta;
pub mod model;
pub mod parse_accounts;
pub mod parse_instruction;
pub mod parse_system;
pub mod stored;
pub mod text;
pub mod wire;

pub use crate::block::{
    ConfirmedBlock, ConfirmedTransaction, EncodedConfirmedBlock, EncodedConfirmedTransaction,
    EncodedTransactionWithStatusMeta, Reward, Rewards, TransactionWithStatusMeta, UnixTimestamp,
};
pub use crate::commitment::{
    CommitmentConfig, CommitmentLevel, ConfirmedTransactionStatusWithSignature, Slot,
    TransactionStatus,
};
pub use crate::encoding::{
    EncodedTransaction, MessageMode, UiMessage, UiParsedMessage, UiRawMessage, UiTransaction,
    UiTransactionEncoding,
};
pub use crate::instruction::{
    InnerInstructions, UiCompiledInstruction, UiInnerInstructions, UiInstruction,
    UiParsedInstruction, UiPartiallyDecodedInstruction,
};
pub use crate::meta::{TransactionStatusMeta, UiTransactionStatusMeta};
pub use crate::model::{
    Blockhash, CompiledInstruction, Message, MessageHeader, Pubkey, Signature, Transaction,
};
