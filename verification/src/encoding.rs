//! The wire and display encodings of a transaction.
//!
//! A transaction is encoded either as text over its canonical binary form,
//! which can be decoded again, or as a structured view for display, which
//! cannot.

use crate::instruction::{
    compiled_ui, parsed_instructions, parsed_ui, UiCompiledInstruction, UiCompiledInstructionView,
    UiInstruction, UiInstructionView,
};
use crate::model::{
    Message, MessageHeader, MessageView, Pubkey, Signature, Transaction, TransactionView,
};
use crate::parse_accounts::{parse_accounts, parsed_accounts, ParsedAccount, ParsedAccountView};
use crate::parse_instruction::{ParserRegistry, ProgramParserView};
use crate::parse_system::builtin_parsers;
use crate::text::{
    base58_bytes, base58_decode, base58_encode, base58_text, base64_bytes, base64_decode,
    base64_encode, base64_text,
};
use crate::wire::{deserialize_transaction, serialize_transaction, wire_bytes, wire_transaction};
use vstd::prelude::*;

verus! {

/// The encodings that a client can ask for.
#[derive(Clone, Copy, Debug, PartialEq, Eq, Structural)]
pub enum UiTransactionEncoding {
    /// Base-58 text without a format tag; kept for older clients.
    Binary,
    Base64,
    Base58,
    Json,
    JsonParsed,
}

/// The name by which a client selects an encoding.
pub open spec fn encoding_name(encoding: UiTransactionEncoding) -> Seq<char> {
    match encoding {
        UiTransactionEncoding::Binary => "binary"@,
        UiTransactionEncoding::Base64 => "base64"@,
        UiTransactionEncoding::Base58 => "base58"@,
        UiTransactionEncoding::Json => "json"@,
        UiTransactionEncoding::JsonParsed => "jsonParsed"@,
    }
}

/// No two encodings share a name.
pub proof fn lemma_encoding_names_differ(a: UiTransactionEncoding, b: UiTransactionEncoding)
    requires
        a != b,
    ensures
        encoding_name(a) != encoding_name(b),
{
    reveal_strlit("binary");
    reveal_strlit("base64");
    reveal_strlit("base58");
    reveal_strlit("json");
    reveal_strlit("jsonParsed");
    assert("binary"@.len() == 6 && "base64"@.len() == 6 && "base58"@.len() == 6);
    assert("json"@.len() == 4 && "jsonParsed"@.len() == 10);
    assert("binary"@[1] == 'i' && "base64"@[1] == 'a' && "base58"@[1] == 'a');
    assert("base64"@[5] == '4' && "base58"@[5] == '8');
}

impl UiTransactionEncoding {
    /// Whether the encoding is text over the canonical binary form.
    pub open spec fn is_binary(self) -> bool {
        self == UiTransactionEncoding::Binary || self == UiTransactionEncoding::Base58 || self
            == UiTransactionEncoding::Base64
    }

    /// The name by which a client selects this encoding.
    pub fn to_string(&self) -> (name: String)
        ensures
            name@ == encoding_name(*self),
    {
        match self {
            UiTransactionEncoding::Binary => "binary".to_owned(),
            UiTransactionEncoding::Base64 => "base64".to_owned(),
            UiTransactionEncoding::Base58 => "base58".to_owned(),
            UiTransactionEncoding::Json => "json".to_owned(),
            UiTransactionEncoding::JsonParsed => "jsonParsed".to_owned(),
        }
    }

    /// The encoding that a client selects by `name`. Any other text than the
    /// five names is rejected.
    pub fn from_name(name: &str) -> (encoding: Option<UiTransactionEncoding>)
        ensures
            match encoding {
                Some(e) => name@ == encoding_name(e),
                None => forall|e: UiTransactionEncoding| name@ != encoding_name(e),
            },
    {
        let owned = name.to_owned();
        if owned == "binary".to_owned() {
            Some(UiTransactionEncoding::Binary)
        } else if owned == "base64".to_owned() {
            Some(UiTransactionEncoding::Base64)
        } else if owned == "base58".to_owned() {
            Some(UiTransactionEncoding::Base58)
        } else if owned == "json".to_owned() {
            Some(UiTransactionEncoding::Json)
        } else if owned == "jsonParsed".to_owned() {
            Some(UiTransactionEncoding::JsonParsed)
        } else {
            None
        }
    }
}

/// A message with every identifier as text and its instructions by
/// position.
#[derive(Clone, Debug, PartialEq, Eq)]
pub struct UiRawMessage {
    pub header: MessageHeader,
    pub account_keys: Vec<String>,
    pub recent_blockhash: String,
    pub instructions: Vec<UiCompiledInstruction>,
}

/// Mathematical value of a [`UiRawMessage`].
pub struct UiRawMessageView {
    pub header: MessageHeader,
    pub account_keys: Seq<Seq<char>>,
    pub recent_blockhash: Seq<char>,
    pub instructions: Seq<UiCompiledInstructionView>,
}

impl View for UiRawMessage {
    type V = UiRawMessageView;

    open spec fn view(&self) -> UiRawMessageView {
        UiRawMessageView {
            header: self.header,
            account_keys: self.account_keys.deep_view(),
            recent_blockhash: self.recent_blockhash@,
            instructions: self.instructions.deep_view(),
        }
    }
}

/// A message with the roles of its accounts spelled out and its
/// instructions by address.
#[derive(Clone, Debug, PartialEq, Eq)]
pub struct UiParsedMessage {
    pub account_keys: Vec<ParsedAccount>,
    pub recent_blockhash: String,
    pub instructions: Vec<UiInstruction>,
}

/// Mathematical value of a [`UiParsedMessage`].
pub struct UiParsedMessageView {
    pub account_keys: Seq<ParsedAccountView>,
    pub recent_blockhash: Seq<char>,
    pub instructions: Seq<UiInstructionView>,
}

impl View for UiParsedMessage {
    type V = UiParsedMessageView;

    open spec fn view(&self) -> UiParsedMessageView {
        UiParsedMessageView {
            account_keys: self.account_keys.deep_view(),
            recent_blockhash: self.recent_blockhash@,
            instructions: self.instructions.deep_view(),
        }
    }
}

/// A message in one of its display forms.
#[derive(Clone, Debug, PartialEq, Eq)]
pub enum UiMessage {
    Parsed(UiParsedMessage),
    Raw(UiRawMessage),
}

/// Mathematical value of a [`UiMessage`].
pub enum UiMessageView {
    Parsed(UiParsedMessageView),
    Raw(UiRawMessageView),
}

impl View for UiMessage {
    type V = UiMessageView;

    open spec fn view(&self) -> UiMessageView {
        match self {
            UiMessage::Parsed(m) => UiMessageView::Parsed(m@),
            UiMessage::Raw(m) => UiMessageView::Raw(m@),
        }
    }
}

/// A transaction for display: its signatures as text and its message in one
/// of the display forms.
#[derive(Clone, Debug, PartialEq, Eq)]
pub struct UiTransaction {
    pub signatures: Vec<String>,
    pub message: UiMessage,
}

/// Mathematical value of a [`UiTransaction`].
pub struct UiTransactionView {
    pub signatures: Seq<Seq<char>>,
    pub message: UiMessageView,
}

impl View for UiTransaction {
    type V = UiTransactionView;

    open spec fn view(&self) -> UiTransactionView {
        UiTransactionView { signatures: self.signatures.deep_view(), message: self.message@ }
    }
}

/// Each identifier of a list as base-58 text.
pub open spec fn texts(identifiers: Seq<Seq<u8>>) -> Seq<Seq<char>> {
    Seq::new(identifiers.len(), |i: int| base58_text(identifiers[i]))
}

/// The raw display form of a message.
pub open spec fn raw_message(message: MessageView) -> UiRawMessageView {
    UiRawMessageView {
        header: message.header,
        account_keys: texts(message.account_keys),
        recent_blockhash: base58_text(message.recent_blockhash),
        instructions: Seq::new(
            message.instructions.len(),
            |k: int| compiled_ui(message.instructions[k]),
        ),
    }
}

/// The parsed display form of a message, with the decoders `parsers`.
pub open spec fn parsed_message(parsers: Seq<ProgramParserView>, message: MessageView)
    -> UiParsedMessageView {
    UiParsedMessageView {
        account_keys: parsed_accounts(message),
        recent_blockhash: base58_text(message.recent_blockhash),
        instructions: Seq::new(
            message.instructions.len(),
            |k: int| parsed_ui(parsers, message.instructions[k], message.account_keys),
        ),
    }
}

impl UiRawMessage {
    /// Shows a message with every identifier as text and every instruction
    /// by position.
    pub fn from(message: &Message) -> (ui: UiRawMessage)
        ensures
            ui@ == raw_message(message@),
    {
        let mut account_keys: Vec<String> = Vec::new();
        let mut i: usize = 0;
        while i < message.account_keys.len()
            invariant
                i <= message.account_keys.len(),
                account_keys.len() == i,
                forall|j: int|
                    0 <= j < i ==> (#[trigger] account_keys[j])@ == base58_text(
                        message.account_keys[j]@,
                    ),
            decreases message.account_keys.len() - i,
        {
            account_keys.push(message.account_keys[i].to_string());
            i += 1;
        }
        let mut instructions: Vec<UiCompiledInstruction> = Vec::new();
        let mut k: usize = 0;
        while k < message.instructions.len()
            invariant
                k <= message.instructions.len(),
                instructions.len() == k,
                forall|j: int|
                    0 <= j < k ==> (#[trigger] instructions[j])@ == compiled_ui(
                        message.instructions[j]@,
                    ),
            decreases message.instructions.len() - k,
        {
            instructions.push(UiCompiledInstruction::from(&message.instructions[k]));
            k += 1;
        }
        let ui = UiRawMessage {
            header: message.header,
            account_keys,
            recent_blockhash: message.recent_blockhash.to_string(),
            instructions,
        };
        assert(ui@.account_keys =~= raw_message(message@).account_keys);
        assert(ui@.instructions =~= raw_message(message@).instructions);
        ui
    }
}

impl UiParsedMessage {
    /// Shows a message with the roles of its accounts and every instruction
    /// by address, consulting the decoders of `registry`. Never fails: at
    /// worst every instruction is shown partially decoded.
    pub fn parse_with(message: &Message, registry: &ParserRegistry) -> (ui: UiParsedMessage)
        requires
            message@.indices_valid(),
        ensures
            ui@ == parsed_message(registry@, message@),
    {
        assert forall|k: int| 0 <= k < message.instructions.len() implies (
        #[trigger] message.instructions.deep_view()[k]).indices_below(
            message.account_keys.len() as nat,
        ) by {
            assert(message@.instructions[k].indices_below(message@.account_keys.len()));
        }
        let ui = UiParsedMessage {
            account_keys: parse_accounts(message),
            recent_blockhash: message.recent_blockhash.to_string(),
            instructions: parsed_instructions(
                &message.instructions,
                &message.account_keys,
                registry,
            ),
        };
        assert(ui@.instructions =~= parsed_message(registry@, message@).instructions);
        ui
    }
}

/// The display form that a message is projected to.
#[derive(Clone, Copy, Debug, PartialEq, Eq, Structural)]
pub enum MessageMode {
    /// Identifiers as text, instructions by position.
    Raw,
    /// Accounts with their roles, instructions by address.
    Parsed,
}

/// The display form of a message in `mode`, with the decoders `parsers` for
/// the parsed form.
pub open spec fn projected(
    parsers: Seq<ProgramParserView>,
    message: MessageView,
    mode: MessageMode,
) -> UiMessageView {
    match mode {
        MessageMode::Raw => UiMessageView::Raw(raw_message(message)),
        MessageMode::Parsed => UiMessageView::Parsed(parsed_message(parsers, message)),
    }
}

impl UiMessage {
    /// Projects a message to its display form in `mode`, consulting the
    /// decoders of `registry` for the parsed form. The raw form needs no
    /// decoding; the parsed form never fails.
    pub fn project(message: &Message, mode: MessageMode, registry: &ParserRegistry) -> (ui:
        UiMessage)
        requires
            mode == MessageMode::Parsed ==> message@.indices_valid(),
        ensures
            ui@ == projected(registry@, message@, mode),
    {
        match mode {
            MessageMode::Raw => UiMessage::Raw(UiRawMessage::from(message)),
            MessageMode::Parsed => UiMessage::Parsed(UiParsedMessage::parse_with(message, registry)),
        }
    }
}

/// A transaction in one of its encodings.
#[derive(Clone, Debug, PartialEq, Eq)]
pub enum EncodedTransaction {
    /// Base-58 text without a format tag; kept for older clients.
    LegacyBinary(String),
    /// Text over the binary form, with the tag of its alphabet.
    Binary(String, UiTransactionEncoding),
    /// A structured view for display.
    Json(UiTransaction),
}

/// Mathematical value of an [`EncodedTransaction`].
pub enum EncodedTransactionView {
    LegacyBinary(Seq<char>),
    Binary(Seq<char>, UiTransactionEncoding),
    Json(UiTransactionView),
}

impl View for EncodedTransaction {
    type V = EncodedTransactionView;

    open spec fn view(&self) -> EncodedTransactionView {
        match self {
            EncodedTransaction::LegacyBinary(blob) => EncodedTransactionView::LegacyBinary(blob@),
            EncodedTransaction::Binary(blob, encoding) => EncodedTransactionView::Binary(
                blob@,
                *encoding,
            ),
            EncodedTransaction::Json(ui) => EncodedTransactionView::Json(ui@),
        }
    }
}

impl DeepView for EncodedTransaction {
    type V = EncodedTransactionView;

    open spec fn deep_view(&self) -> EncodedTransactionView {
        self@
    }
}

impl EncodedTransactionView {
    /// The text over the binary form that the encoding carries, if any.
    pub open spec fn payload(self) -> Option<Seq<char>> {
        match self {
            EncodedTransactionView::LegacyBinary(blob) => Some(blob),
            EncodedTransactionView::Binary(blob, _) => Some(blob),
            EncodedTransactionView::Json(_) => None,
        }
    }

    /// The bytes that the text of the encoding stands for: the text read as
    /// base-58 without a tag or with the base-58 tag, as base-64 with the
    /// base-64 tag; nothing for any other tag and for a structured view.
    pub open spec fn payload_bytes(self) -> Option<Seq<u8>> {
        match self {
            EncodedTransactionView::LegacyBinary(blob) => base58_bytes(blob),
            EncodedTransactionView::Binary(blob, encoding) => match encoding {
                UiTransactionEncoding::Base58 => base58_bytes(blob),
                UiTransactionEncoding::Base64 => base64_bytes(blob),
                _ => None,
            },
            EncodedTransactionView::Json(_) => None,
        }
    }
}

/// The encoding of a transaction in format `encoding`, with the decoders
/// `parsers` for the parsed display form.
pub open spec fn encoded(
    parsers: Seq<ProgramParserView>,
    transaction: TransactionView,
    encoding: UiTransactionEncoding,
) -> EncodedTransactionView {
    match encoding {
        UiTransactionEncoding::Binary => EncodedTransactionView::LegacyBinary(
            base58_text(wire_bytes(transaction)),
        ),
        UiTransactionEncoding::Base58 => EncodedTransactionView::Binary(
            base58_text(wire_bytes(transaction)),
            UiTransactionEncoding::Base58,
        ),
        UiTransactionEncoding::Base64 => EncodedTransactionView::Binary(
            base64_text(wire_bytes(transaction)),
            UiTransactionEncoding::Base64,
        ),
        UiTransactionEncoding::Json => EncodedTransactionView::Json(
            UiTransactionView {
                signatures: texts(transaction.signatures),
                message: UiMessageView::Raw(raw_message(transaction.message)),
            },
        ),
        UiTransactionEncoding::JsonParsed => EncodedTransactionView::Json(
            UiTransactionView {
                signatures: texts(transaction.signatures),
                message: UiMessageView::Parsed(parsed_message(parsers, transaction.message)),
            },
        ),
    }
}

/// The transaction that an encoding decodes to: what the canonical binary
/// form of its payload bytes holds, and nothing where there are no such
/// bytes or they are not a transaction.
pub open spec fn decoded(encoding: EncodedTransactionView) -> Option<TransactionView> {
    match encoding.payload_bytes() {
        Some(bytes) => wire_transaction(bytes),
        None => None,
    }
}

/// The preconditions of encoding: the binary form carries at most 65535
/// elements in each sequence, and the parsed display form resolves every
/// position that an instruction names.
pub open spec fn encodable(transaction: TransactionView, encoding: UiTransactionEncoding) -> bool {
    &&& encoding.is_binary() ==> transaction.fits_wire()
    &&& encoding == UiTransactionEncoding::JsonParsed ==> transaction.message.indices_valid()
}

fn signature_texts(signatures: &Vec<Signature>) -> (shown: Vec<String>)
    ensures
        shown.deep_view() == texts(signatures.deep_view()),
{
    let mut shown: Vec<String> = Vec::new();
    let mut i: usize = 0;
    while i < signatures.len()
        invariant
            i <= signatures.len(),
            shown.len() == i,
            forall|j: int| 0 <= j < i ==> (#[trigger] shown[j])@ == base58_text(signatures[j]@),
        decreases signatures.len() - i,
    {
        shown.push(signatures[i].to_string());
        i += 1;
    }
    assert(shown.deep_view() =~= texts(signatures.deep_view()));
    shown
}

/// Encodes a transaction in format `encoding` without consuming it.
pub(crate) fn encode_borrowed(
    transaction: &Transaction,
    encoding: UiTransactionEncoding,
    registry: &ParserRegistry,
) -> (result: EncodedTransaction)
    requires
        encodable(transaction@, encoding),
    ensures
        result@ == encoded(registry@, transaction@, encoding),
        encoding.is_binary() ==> decoded(result@) == Some(transaction@),
        !encoding.is_binary() ==> decoded(result@).is_none(),
{
    match encoding {
        UiTransactionEncoding::Binary => {
            let bytes = serialize_transaction(transaction);
            EncodedTransaction::LegacyBinary(base58_encode(bytes.as_slice()))
        },
        UiTransactionEncoding::Base58 => {
            let bytes = serialize_transaction(transaction);
            EncodedTransaction::Binary(base58_encode(bytes.as_slice()), encoding)
        },
        UiTransactionEncoding::Base64 => {
            let bytes = serialize_transaction(transaction);
            EncodedTransaction::Binary(base64_encode(bytes.as_slice()), encoding)
        },
        UiTransactionEncoding::Json => {
            let message = UiMessage::project(&transaction.message, MessageMode::Raw, registry);
            EncodedTransaction::Json(
                UiTransaction { signatures: signature_texts(&transaction.signatures), message },
            )
        },
        UiTransactionEncoding::JsonParsed => {
            let message = UiMessage::project(&transaction.message, MessageMode::Parsed, registry);
            EncodedTransaction::Json(
                UiTransaction { signatures: signature_texts(&transaction.signatures), message },
            )
        },
    }
}

impl EncodedTransaction {
    /// Encodes a transaction in format `encoding`, with the decoders of
    /// `registry` for the parsed display form.
    ///
    /// The three binary formats decode back to the transaction; the two
    /// display formats decode to nothing.
    pub fn encode_with(
        transaction: Transaction,
        encoding: UiTransactionEncoding,
        registry: &ParserRegistry,
    ) -> (result: EncodedTransaction)
        requires
            encodable(transaction@, encoding),
        ensures
            result@ == encoded(registry@, transaction@, encoding),
            encoding.is_binary() ==> decoded(result@) == Some(transaction@),
            !encoding.is_binary() ==> decoded(result@).is_none(),
    {
        encode_borrowed(&transaction, encoding, registry)
    }

    /// Encodes a transaction in format `encoding`, with the decoders of the
    /// known programs for the parsed display form.
    pub fn encode(transaction: Transaction, encoding: UiTransactionEncoding) -> (result:
        EncodedTransaction)
        requires
            encodable(transaction@, encoding),
        ensures
            result@ == encoded(builtin_parsers(), transaction@, encoding),
            encoding.is_binary() ==> decoded(result@) == Some(transaction@),
            !encoding.is_binary() ==> decoded(result@).is_none(),
    {
        let registry = ParserRegistry::builtin();
        EncodedTransaction::encode_with(transaction, encoding, &registry)
    }

    /// Whether a transaction meets the preconditions of encoding it in
    /// format `encoding`.
    pub fn can_encode(transaction: &Transaction, encoding: UiTransactionEncoding) -> (yes: bool)
        ensures
            yes == encodable(transaction@, encoding),
    {
        match encoding {
            UiTransactionEncoding::Binary
            | UiTransactionEncoding::Base58
            | UiTransactionEncoding::Base64 => transaction.fits_wire(),
            UiTransactionEncoding::Json => true,
            UiTransactionEncoding::JsonParsed => transaction.message.indices_valid(),
        }
    }

    /// Encodes a transaction in format `encoding` if it meets the
    /// preconditions of doing so, and returns `None` if it does not.
    pub fn try_encode(transaction: Transaction, encoding: UiTransactionEncoding) -> (result:
        Option<EncodedTransaction>)
        ensures
            result is Some <==> encodable(transaction@, encoding),
            result matches Some(e) ==> {
                &&& e@ == encoded(builtin_parsers(), transaction@, encoding)
                &&& encoding.is_binary() ==> decoded(e@) == Some(transaction@)
                &&& !encoding.is_binary() ==> decoded(e@).is_none()
            },
    {
        if EncodedTransaction::can_encode(&transaction, encoding) {
            Some(EncodedTransaction::encode(transaction, encoding))
        } else {
            None
        }
    }

    /// The bytes that the text of a binary encoding stands for, or `None`
    /// where the encoding is a structured view, carries a tag other than
    /// base-58 or base-64, or its text is not of the tagged alphabet.
    pub fn payload_bytes(&self) -> (bytes: Option<Vec<u8>>)
        ensures
            bytes.deep_view() == self@.payload_bytes(),
    {
        match self {
            EncodedTransaction::Json(_) => None,
            EncodedTransaction::LegacyBinary(blob) => base58_decode(blob.as_str()),
            EncodedTransaction::Binary(blob, encoding) => match encoding {
                UiTransactionEncoding::Base58 => base58_decode(blob.as_str()),
                UiTransactionEncoding::Base64 => base64_decode(blob.as_str()),
                UiTransactionEncoding::Binary
                | UiTransactionEncoding::Json
                | UiTransactionEncoding::JsonParsed => None,
            },
        }
    }

    /// Decodes a binary encoding back into the transaction. Returns `None`
    /// for a structured view, for text that is not of the tagged alphabet,
    /// and for bytes that are not the binary form of a transaction.
    pub fn decode(&self) -> (transaction: Option<Transaction>)
        ensures
            transaction.deep_view() == decoded(self@),
    {
        match self.payload_bytes() {
            Some(bytes) => {
                assert(bytes.deep_view() =~= bytes@);
                deserialize_transaction(bytes.as_slice())
            },
            None => None,
        }
    }
}

} // verus!
