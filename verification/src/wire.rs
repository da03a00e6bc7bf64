//! The canonical binary form of a transaction.
//!
//! The byte layout is the one that `bincode` gives to the ledger's own
//! transaction type. This module hands a transaction to that serializer and
//! takes one back from it; the layout itself is named, not restated.

use crate::model::{
    Blockhash, CompiledInstruction, Message, MessageHeader, Pubkey, Signature, Transaction,
    TransactionView,
};
use solana_sdk::{hash, instruction, message, pubkey, signature, transaction};
use vstd::prelude::*;

verus! {

/// The bytes that `bincode::serialize` produces for the ledger transaction
/// with the fields of `tx`.
pub uninterp spec fn wire_bytes(tx: TransactionView) -> Seq<u8>;

/// The transaction that `bincode::deserialize` reads from the front of
/// `bytes`, or `None` where it reports an error.
pub uninterp spec fn wire_transaction(bytes: Seq<u8>) -> Option<TransactionView>;

/// Builds the ledger's transaction from the fields of `tx` and calls
/// `bincode::serialize` on it. Trusted: serialization succeeds when every
/// sequence has at most 65535 elements, the bytes are a function of the
/// fields alone, and deserializing them gives the same fields back.
#[verifier::external_body]
pub(crate) fn serialize_transaction(tx: &Transaction) -> (bytes: Vec<u8>)
    requires
        tx@.fits_wire(),
    ensures
        bytes@ == wire_bytes(tx@),
        wire_transaction(bytes@) == Some(tx@),
{
    let m = &tx.message;
    let keys = m.account_keys.iter().map(|k| pubkey::Pubkey::new_from_array(k.0)).collect();
    let ixs = m.instructions.iter().map(|i| instruction::CompiledInstruction {
        program_id_index: i.program_id_index,
        accounts: i.accounts.clone(),
        data: i.data.clone(),
    }).collect();
    let message = message::Message::new_with_compiled_instructions(
        m.header.num_required_signatures, m.header.num_readonly_signed_accounts,
        m.header.num_readonly_unsigned_accounts, keys, hash::Hash(m.recent_blockhash.0), ixs);
    let signatures = tx.signatures.iter().map(|s| signature::Signature::new(&s.0)).collect();
    bincode::serialize(&transaction::Transaction { signatures, message }).unwrap()
}

/// Calls `bincode::deserialize` for the ledger's transaction and copies its
/// fields out. Trusted: the result is a function of the bytes alone; an error
/// of the crate is reported as `None`.
#[verifier::external_body]
pub(crate) fn deserialize_transaction(bytes: &[u8]) -> (tx: Option<Transaction>)
    ensures
        tx.deep_view() == wire_transaction(bytes@),
{
    let t: transaction::Transaction = bincode::deserialize(bytes).ok()?;
    let m = t.message;
    let header = MessageHeader {
        num_required_signatures: m.header.num_required_signatures,
        num_readonly_signed_accounts: m.header.num_readonly_signed_accounts,
        num_readonly_unsigned_accounts: m.header.num_readonly_unsigned_accounts,
    };
    let signatures = t.signatures.iter().map(|s| Signature((*s).into())).collect();
    let account_keys = m.account_keys.iter().map(|k| Pubkey(k.to_bytes())).collect();
    let instructions = m.instructions.into_iter().map(|i| CompiledInstruction {
        program_id_index: i.program_id_index, accounts: i.accounts, data: i.data
    }).collect();
    let recent_blockhash = Blockhash(m.recent_blockhash.0);
    Some(Transaction { signatures, message: Message { header, account_keys, recent_blockhash, instructions } })
}

} // verus!
