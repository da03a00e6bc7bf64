//! Properties that relate the encodings to each other.

use crate::encoding::{
    decoded, encoded, EncodedTransactionView, UiMessageView, UiTransactionEncoding,
};
use crate::instruction::{
    parsed_ui, partially_decoded, UiInstructionView, UiParsedInstructionView,
};
use crate::model::{CompiledInstructionView, TransactionView};
use crate::parse_instruction::{is_registered, ProgramParserView};
use vstd::prelude::*;

verus! {

/// The untagged encoding and the encoding tagged base-58 carry the same
/// text for the same transaction.
pub proof fn lemma_legacy_and_base58_agree(
    parsers: Seq<ProgramParserView>,
    transaction: TransactionView,
)
    ensures
        encoded(parsers, transaction, UiTransactionEncoding::Binary).payload() is Some,
        encoded(parsers, transaction, UiTransactionEncoding::Binary).payload() == encoded(
            parsers,
            transaction,
            UiTransactionEncoding::Base58,
        ).payload(),
{
}

/// Neither display form of a transaction decodes to anything.
pub proof fn lemma_display_forms_do_not_decode(
    parsers: Seq<ProgramParserView>,
    transaction: TransactionView,
)
    ensures
        decoded(encoded(parsers, transaction, UiTransactionEncoding::Json)) is None,
        decoded(encoded(parsers, transaction, UiTransactionEncoding::JsonParsed)) is None,
{
}

/// An encoding that carries a tag other than base-58 or base-64 decodes to
/// nothing, whatever its text.
pub proof fn lemma_other_tags_do_not_decode(blob: Seq<char>, tag: UiTransactionEncoding)
    requires
        tag != UiTransactionEncoding::Base58,
        tag != UiTransactionEncoding::Base64,
    ensures
        decoded(EncodedTransactionView::Binary(blob, tag)) is None,
{
}

/// Showing an instruction by address never fails. Where no decoder is
/// registered for its program, the instruction is shown partially decoded,
/// with one address for each account position that it names.
pub proof fn lemma_unregistered_program_falls_back(
    parsers: Seq<ProgramParserView>,
    instruction: CompiledInstructionView,
    account_keys: Seq<Seq<u8>>,
)
    requires
        !is_registered(parsers, account_keys[instruction.program_id_index as int]),
    ensures
        parsed_ui(parsers, instruction, account_keys) == UiInstructionView::Parsed(
            UiParsedInstructionView::PartiallyDecoded(partially_decoded(instruction, account_keys)),
        ),
        partially_decoded(instruction, account_keys).accounts.len() == instruction.accounts.len(),
{
}

/// Whatever the decoders, an instruction shown by address is either
/// structured or partially decoded, never shown by position.
pub proof fn lemma_parsed_form_is_total(
    parsers: Seq<ProgramParserView>,
    instruction: CompiledInstructionView,
    account_keys: Seq<Seq<u8>>,
)
    ensures
        parsed_ui(parsers, instruction, account_keys) is Parsed,
{
}

/// The parsed display form of a transaction holds one account with roles
/// for each account of the message and one instruction for each of its
/// instructions.
pub proof fn lemma_parsed_form_keeps_counts(
    parsers: Seq<ProgramParserView>,
    transaction: TransactionView,
)
    ensures
        encoded(parsers, transaction, UiTransactionEncoding::JsonParsed) matches
            EncodedTransactionView::Json(ui) && ui.message matches
            UiMessageView::Parsed(message) && message.account_keys.len()
            == transaction.message.account_keys.len() && message.instructions.len()
            == transaction.message.instructions.len(),
{
}

} // verus!
