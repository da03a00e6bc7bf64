//! Account roles: whether the account at a position of a message signs the
//! transaction, and whether the transaction may write to it.
//!
//! The account list of a message is laid out in four bands, in this order:
//! signing and writable, signing and read-only, non-signing and writable,
//! non-signing and read-only. The header gives the sizes of the bands.

use crate::model::{Message, MessageHeader, MessageView};
use crate::text::base58_text;
use vstd::prelude::*;

verus! {

/// Whether position `i` lies in one of the two signing bands.
pub open spec fn is_signer_at(header: MessageHeader, i: int) -> bool {
    i < header.num_required_signatures
}

/// Whether position `i` of an account list of `len` entries lies in one of
/// the two writable bands.
pub open spec fn is_writable_at(header: MessageHeader, len: int, i: int) -> bool {
    i < header.num_required_signatures - header.num_readonly_signed_accounts || (i
        >= header.num_required_signatures && i < len - header.num_readonly_unsigned_accounts)
}

/// The four bands lie in the account list one after the other, with the
/// sizes that the header gives: signing and writable, signing and
/// read-only, non-signing and writable, non-signing and read-only.
pub proof fn lemma_four_bands(header: MessageHeader, len: int, i: int)
    requires
        header.num_readonly_signed_accounts <= header.num_required_signatures,
        header.num_required_signatures + header.num_readonly_unsigned_accounts <= len,
        0 <= i < len,
    ensures
        i < header.num_required_signatures - header.num_readonly_signed_accounts ==> is_signer_at(
            header,
            i,
        ) && is_writable_at(header, len, i),
        header.num_required_signatures - header.num_readonly_signed_accounts <= i
            < header.num_required_signatures ==> is_signer_at(header, i) && !is_writable_at(
            header,
            len,
            i,
        ),
        header.num_required_signatures <= i < len - header.num_readonly_unsigned_accounts
            ==> !is_signer_at(header, i) && is_writable_at(header, len, i),
        len - header.num_readonly_unsigned_accounts <= i ==> !is_signer_at(header, i)
            && !is_writable_at(header, len, i),
{
}

/// How the role of an account was derived.
#[derive(Clone, Copy, Debug, PartialEq, Eq, Structural)]
pub enum ParsedAccountSource {
    /// From the position of the account in the message.
    Transaction,
    /// From an address lookup table.
    LookupTable,
}

/// An account of a message with its roles spelled out.
#[derive(Clone, Debug, PartialEq, Eq)]
pub struct ParsedAccount {
    pub pubkey: String,
    pub writable: bool,
    pub signer: bool,
    pub source: Option<ParsedAccountSource>,
}

/// Mathematical value of a [`ParsedAccount`].
pub struct ParsedAccountView {
    pub pubkey: Seq<char>,
    pub writable: bool,
    pub signer: bool,
    pub source: Option<ParsedAccountSource>,
}

impl View for ParsedAccount {
    type V = ParsedAccountView;

    open spec fn view(&self) -> ParsedAccountView {
        ParsedAccountView {
            pubkey: self.pubkey@,
            writable: self.writable,
            signer: self.signer,
            source: self.source,
        }
    }
}

impl DeepView for ParsedAccount {
    type V = ParsedAccountView;

    open spec fn deep_view(&self) -> ParsedAccountView {
        self@
    }
}

/// The account at position `i` of `message`, with its roles.
pub open spec fn parsed_account_at(message: MessageView, i: int) -> ParsedAccountView {
    ParsedAccountView {
        pubkey: base58_text(message.account_keys[i]),
        writable: is_writable_at(message.header, message.account_keys.len() as int, i),
        signer: is_signer_at(message.header, i),
        source: Some(ParsedAccountSource::Transaction),
    }
}

/// Every account of `message`, in order, with its roles.
pub open spec fn parsed_accounts(message: MessageView) -> Seq<ParsedAccountView> {
    Seq::new(message.account_keys.len(), |i: int| parsed_account_at(message, i))
}

impl Message {
    /// Whether the account at position `i` must sign the transaction.
    pub fn is_signer(&self, i: usize) -> (signer: bool)
        ensures
            signer == is_signer_at(self.header, i as int),
    {
        i < self.header.num_required_signatures as usize
    }

    /// Whether the transaction may write to the account at position `i`.
    pub fn is_writable(&self, i: usize) -> (writable: bool)
        ensures
            writable == is_writable_at(self.header, self.account_keys.len() as int, i as int),
    {
        let signed: usize = self.header.num_required_signatures as usize;
        let readonly_signed: usize = self.header.num_readonly_signed_accounts as usize;
        let readonly_unsigned: usize = self.header.num_readonly_unsigned_accounts as usize;
        let len: usize = self.account_keys.len();
        (readonly_signed <= signed && i < signed - readonly_signed) || (i >= signed
            && readonly_unsigned <= len && i < len - readonly_unsigned)
    }
}

/// Lists the accounts of a message with their addresses as text and their
/// roles, in the order of the message.
pub fn parse_accounts(message: &Message) -> (accounts: Vec<ParsedAccount>)
    ensures
        accounts.deep_view() == parsed_accounts(message@),
{
    let mut accounts: Vec<ParsedAccount> = Vec::new();
    let mut i: usize = 0;
    while i < message.account_keys.len()
        invariant
            i <= message.account_keys.len(),
            accounts.len() == i,
            forall|j: int| 0 <= j < i ==> (#[trigger] accounts[j])@ == parsed_account_at(message@, j),
        decreases message.account_keys.len() - i,
    {
        let account = ParsedAccount {
            pubkey: message.account_keys[i].to_string(),
            writable: message.is_writable(i),
            signer: message.is_signer(i),
            source: Some(ParsedAccountSource::Transaction),
        };
        accounts.push(account);
        i += 1;
    }
    assert(accounts.deep_view() =~= parsed_accounts(message@));
    accounts
}

} // verus!
