//! The internal, compact model of a transaction: fixed-width identifiers, a
//! message whose account positions encode their roles, and the instructions
//! that refer to accounts by position.

use crate::text::{base58_encode, base58_text};
use vstd::prelude::*;

verus! {

/// Largest element count that a length-prefixed sequence of the binary form
/// can carry.
pub const MAX_WIRE_LEN: usize = 65535;

/// A 32-byte account address.
#[derive(Clone, Copy, Debug, PartialEq, Eq)]
pub struct Pubkey(pub [u8; 32]);

/// A 64-byte transaction signature.
#[derive(Clone, Copy, Debug, PartialEq, Eq)]
pub struct Signature(pub [u8; 64]);

/// A 32-byte ledger entry identifier.
#[derive(Clone, Copy, Debug, PartialEq, Eq)]
pub struct Blockhash(pub [u8; 32]);

impl View for Pubkey {
    type V = Seq<u8>;

    open spec fn view(&self) -> Seq<u8> {
        self.0@
    }
}

impl DeepView for Pubkey {
    type V = Seq<u8>;

    open spec fn deep_view(&self) -> Seq<u8> {
        self.0@
    }
}

impl View for Signature {
    type V = Seq<u8>;

    open spec fn view(&self) -> Seq<u8> {
        self.0@
    }
}

impl DeepView for Signature {
    type V = Seq<u8>;

    open spec fn deep_view(&self) -> Seq<u8> {
        self.0@
    }
}

impl View for Blockhash {
    type V = Seq<u8>;

    open spec fn view(&self) -> Seq<u8> {
        self.0@
    }
}

impl Pubkey {
    /// Wraps 32 bytes as an address.
    pub fn new_from_array(bytes: [u8; 32]) -> (key: Pubkey)
        ensures
            key@ == bytes@,
    {
        Pubkey(bytes)
    }

    /// The 32 bytes of the address.
    pub fn to_bytes(&self) -> (bytes: [u8; 32])
        ensures
            bytes@ == self@,
    {
        self.0
    }

    /// The address as base-58 text.
    pub fn to_string(&self) -> (text: String)
        ensures
            text@ == base58_text(self@),
    {
        base58_encode(self.0.as_slice())
    }

    /// Whether two addresses hold the same bytes.
    pub fn same_as(&self, other: &Pubkey) -> (same: bool)
        ensures
            same == (self@ == other@),
    {
        let mut i: usize = 0;
        while i < 32
            invariant
                i <= 32,
                forall|j: int| 0 <= j < i ==> self.0@[j] == other.0@[j],
            decreases 32 - i,
        {
            if self.0[i] != other.0[i] {
                return false;
            }
            i += 1;
        }
        assert(self.0@ =~= other.0@);
        true
    }
}

impl Signature {
    /// Wraps 64 bytes as a signature.
    pub fn new_from_array(bytes: [u8; 64]) -> (sig: Signature)
        ensures
            sig@ == bytes@,
    {
        Signature(bytes)
    }

    /// The signature as base-58 text.
    pub fn to_string(&self) -> (text: String)
        ensures
            text@ == base58_text(self@),
    {
        base58_encode(self.0.as_slice())
    }
}

impl Blockhash {
    /// Wraps 32 bytes as a ledger entry identifier.
    pub fn new_from_array(bytes: [u8; 32]) -> (hash: Blockhash)
        ensures
            hash@ == bytes@,
    {
        Blockhash(bytes)
    }

    /// The identifier as base-58 text.
    pub fn to_string(&self) -> (text: String)
        ensures
            text@ == base58_text(self@),
    {
        base58_encode(self.0.as_slice())
    }
}

/// Positional counts that split the account list of a message into its four
/// role bands.
#[derive(Clone, Copy, Debug, PartialEq, Eq, Structural)]
pub struct MessageHeader {
    pub num_required_signatures: u8,
    pub num_readonly_signed_accounts: u8,
    pub num_readonly_unsigned_accounts: u8,
}

/// An instruction that names its program and accounts by position in the
/// account list of the enclosing message.
#[derive(Clone, Debug, PartialEq, Eq)]
pub struct CompiledInstruction {
    pub program_id_index: u8,
    pub accounts: Vec<u8>,
    pub data: Vec<u8>,
}

/// Mathematical value of a [`CompiledInstruction`].
pub struct CompiledInstructionView {
    pub program_id_index: u8,
    pub accounts: Seq<u8>,
    pub data: Seq<u8>,
}

impl View for CompiledInstruction {
    type V = CompiledInstructionView;

    open spec fn view(&self) -> CompiledInstructionView {
        CompiledInstructionView {
            program_id_index: self.program_id_index,
            accounts: self.accounts@,
            data: self.data@,
        }
    }
}

impl DeepView for CompiledInstruction {
    type V = CompiledInstructionView;

    open spec fn deep_view(&self) -> CompiledInstructionView {
        self@
    }
}

impl CompiledInstructionView {
    /// Every position that the instruction names lies inside an account list
    /// of `n` entries.
    pub open spec fn indices_below(self, n: nat) -> bool {
        &&& (self.program_id_index as nat) < n
        &&& forall|j: int| 0 <= j < self.accounts.len() ==> (#[trigger] self.accounts[j] as nat) < n
    }

    /// Both byte sequences are short enough for the binary form.
    pub open spec fn fits_wire(self) -> bool {
        self.accounts.len() <= MAX_WIRE_LEN && self.data.len() <= MAX_WIRE_LEN
    }
}

impl CompiledInstruction {
    /// Whether every position that the instruction names lies inside an
    /// account list of `n` entries.
    pub fn indices_below(&self, n: usize) -> (valid: bool)
        ensures
            valid == self@.indices_below(n as nat),
    {
        if self.program_id_index as usize >= n {
            return false;
        }
        let mut j: usize = 0;
        while j < self.accounts.len()
            invariant
                j <= self.accounts.len(),
                forall|i: int| 0 <= i < j ==> (#[trigger] self.accounts@[i] as nat) < n,
            decreases self.accounts.len() - j,
        {
            if self.accounts[j] as usize >= n {
                assert((self@.accounts[j as int] as nat) >= n);
                return false;
            }
            j += 1;
        }
        true
    }

    /// Whether both byte sequences are short enough for the binary form.
    pub fn fits_wire(&self) -> (fits: bool)
        ensures
            fits == self@.fits_wire(),
    {
        self.accounts.len() <= MAX_WIRE_LEN && self.data.len() <= MAX_WIRE_LEN
    }
}

/// Whether every instruction of a list names only positions below `n`.
pub fn all_indices_below(instructions: &Vec<CompiledInstruction>, n: usize) -> (valid: bool)
    ensures
        valid == forall|k: int|
            0 <= k < instructions.len() ==> (#[trigger] instructions.deep_view()[k]).indices_below(
                n as nat,
            ),
{
    let mut k: usize = 0;
    while k < instructions.len()
        invariant
            k <= instructions.len(),
            forall|i: int|
                0 <= i < k ==> (#[trigger] instructions.deep_view()[i]).indices_below(n as nat),
        decreases instructions.len() - k,
    {
        assert(instructions.deep_view()[k as int] == instructions[k as int]@);
        if !instructions[k].indices_below(n) {
            return false;
        }
        k += 1;
    }
    true
}

/// The signable body of a transaction.
#[derive(Clone, Debug, PartialEq, Eq)]
pub struct Message {
    pub header: MessageHeader,
    pub account_keys: Vec<Pubkey>,
    pub recent_blockhash: Blockhash,
    pub instructions: Vec<CompiledInstruction>,
}

/// Mathematical value of a [`Message`].
pub struct MessageView {
    pub header: MessageHeader,
    pub account_keys: Seq<Seq<u8>>,
    pub recent_blockhash: Seq<u8>,
    pub instructions: Seq<CompiledInstructionView>,
}

impl View for Message {
    type V = MessageView;

    open spec fn view(&self) -> MessageView {
        MessageView {
            header: self.header,
            account_keys: self.account_keys.deep_view(),
            recent_blockhash: self.recent_blockhash@,
            instructions: self.instructions.deep_view(),
        }
    }
}

impl MessageView {
    /// Every instruction names only positions of the account list.
    pub open spec fn indices_valid(self) -> bool {
        forall|k: int|
            0 <= k < self.instructions.len() ==> (#[trigger] self.instructions[k]).indices_below(
                self.account_keys.len(),
            )
    }

    /// The signing band and the read-only unsigned band do not overlap, and
    /// every instruction names only positions of the account list.
    pub open spec fn well_formed(self) -> bool {
        &&& self.header.num_required_signatures + self.header.num_readonly_unsigned_accounts
            <= self.account_keys.len()
        &&& self.indices_valid()
    }

    /// Every sequence is short enough for the binary form.
    pub open spec fn fits_wire(self) -> bool {
        &&& self.account_keys.len() <= MAX_WIRE_LEN
        &&& self.instructions.len() <= MAX_WIRE_LEN
        &&& forall|k: int|
            0 <= k < self.instructions.len() ==> (#[trigger] self.instructions[k]).fits_wire()
    }
}

impl Message {
    /// Whether every instruction names only positions of the account list.
    pub fn indices_valid(&self) -> (valid: bool)
        ensures
            valid == self@.indices_valid(),
    {
        let valid = all_indices_below(&self.instructions, self.account_keys.len());
        proof {
            assert(self@.account_keys.len() == self.account_keys.len());
            assert(self@.instructions == self.instructions.deep_view());
            if !valid {
                let k = choose|k: int|
                    0 <= k < self.instructions.len() && !(
                    #[trigger] self.instructions.deep_view()[k]).indices_below(
                        self.account_keys.len() as nat,
                    );
                assert(!self@.instructions[k].indices_below(self@.account_keys.len()));
            }
        }
        valid
    }

    /// Whether the message keeps its invariant: the signing band and the
    /// read-only unsigned band do not overlap, and every instruction names
    /// only positions of the account list.
    pub fn is_well_formed(&self) -> (valid: bool)
        ensures
            valid == self@.well_formed(),
    {
        let signed: usize = self.header.num_required_signatures as usize;
        let readonly_unsigned: usize = self.header.num_readonly_unsigned_accounts as usize;
        signed + readonly_unsigned <= self.account_keys.len() && self.indices_valid()
    }

    /// Whether every sequence is short enough for the binary form.
    pub fn fits_wire(&self) -> (fits: bool)
        ensures
            fits == self@.fits_wire(),
    {
        if self.account_keys.len() > MAX_WIRE_LEN || self.instructions.len() > MAX_WIRE_LEN {
            return false;
        }
        let mut k: usize = 0;
        while k < self.instructions.len()
            invariant
                k <= self.instructions.len(),
                forall|i: int|
                    0 <= i < k ==> (#[trigger] self.instructions.deep_view()[i]).fits_wire(),
            decreases self.instructions.len() - k,
        {
            assert(self.instructions.deep_view()[k as int] == self.instructions[k as int]@);
            if !self.instructions[k].fits_wire() {
                return false;
            }
            k += 1;
        }
        true
    }
}

/// A message together with the signatures over it.
#[derive(Clone, Debug, PartialEq, Eq)]
pub struct Transaction {
    pub signatures: Vec<Signature>,
    pub message: Message,
}

/// Mathematical value of a [`Transaction`].
pub struct TransactionView {
    pub signatures: Seq<Seq<u8>>,
    pub message: MessageView,
}

impl View for Transaction {
    type V = TransactionView;

    open spec fn view(&self) -> TransactionView {
        TransactionView { signatures: self.signatures.deep_view(), message: self.message@ }
    }
}

impl DeepView for Transaction {
    type V = TransactionView;

    open spec fn deep_view(&self) -> TransactionView {
        self@
    }
}

impl TransactionView {
    /// Every sequence is short enough for the binary form.
    pub open spec fn fits_wire(self) -> bool {
        self.signatures.len() <= MAX_WIRE_LEN && self.message.fits_wire()
    }
}

impl Transaction {
    /// Whether every sequence is short enough for the binary form.
    pub fn fits_wire(&self) -> (fits: bool)
        ensures
            fits == self@.fits_wire(),
    {
        self.signatures.len() <= MAX_WIRE_LEN && self.message.fits_wire()
    }
}

} // verus!
