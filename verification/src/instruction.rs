//! Display forms of an instruction: by position, by address, or fully
//! structured.

use crate::model::{CompiledInstruction, CompiledInstructionView, Message, Pubkey};
use crate::parse_instruction::{
    parsed_instruction, ParsedInstruction, ParsedInstructionView, ParserRegistry,
    ProgramParserView,
};
use crate::parse_system::builtin_parsers;
use crate::text::{base58_encode, base58_text};
use vstd::prelude::*;

verus! {

/// An instruction that names its program and accounts by position, with its
/// data as base-58 text.
#[derive(Clone, Debug, PartialEq, Eq)]
pub struct UiCompiledInstruction {
    pub program_id_index: u8,
    pub accounts: Vec<u8>,
    pub data: String,
}

/// Mathematical value of a [`UiCompiledInstruction`].
pub struct UiCompiledInstructionView {
    pub program_id_index: u8,
    pub accounts: Seq<u8>,
    pub data: Seq<char>,
}

impl View for UiCompiledInstruction {
    type V = UiCompiledInstructionView;

    open spec fn view(&self) -> UiCompiledInstructionView {
        UiCompiledInstructionView {
            program_id_index: self.program_id_index,
            accounts: self.accounts@,
            data: self.data@,
        }
    }
}

impl DeepView for UiCompiledInstruction {
    type V = UiCompiledInstructionView;

    open spec fn deep_view(&self) -> UiCompiledInstructionView {
        self@
    }
}

/// An instruction that names its program and accounts by address, with its
/// data as base-58 text: the form of an instruction that no decoder
/// recognizes.
#[derive(Clone, Debug, PartialEq, Eq)]
pub struct UiPartiallyDecodedInstruction {
    pub program_id: String,
    pub accounts: Vec<String>,
    pub data: String,
}

/// Mathematical value of a [`UiPartiallyDecodedInstruction`].
pub struct UiPartiallyDecodedInstructionView {
    pub program_id: Seq<char>,
    pub accounts: Seq<Seq<char>>,
    pub data: Seq<char>,
}

impl View for UiPartiallyDecodedInstruction {
    type V = UiPartiallyDecodedInstructionView;

    open spec fn view(&self) -> UiPartiallyDecodedInstructionView {
        UiPartiallyDecodedInstructionView {
            program_id: self.program_id@,
            accounts: self.accounts.deep_view(),
            data: self.data@,
        }
    }
}

/// An instruction shown by address: structured where a decoder recognizes
/// it, partially decoded otherwise.
#[derive(Clone, Debug, PartialEq, Eq)]
pub enum UiParsedInstruction {
    Parsed(ParsedInstruction),
    PartiallyDecoded(UiPartiallyDecodedInstruction),
}

/// Mathematical value of a [`UiParsedInstruction`].
pub enum UiParsedInstructionView {
    Parsed(ParsedInstructionView),
    PartiallyDecoded(UiPartiallyDecodedInstructionView),
}

impl View for UiParsedInstruction {
    type V = UiParsedInstructionView;

    open spec fn view(&self) -> UiParsedInstructionView {
        match self {
            UiParsedInstruction::Parsed(p) => UiParsedInstructionView::Parsed(p@),
            UiParsedInstruction::PartiallyDecoded(p) => UiParsedInstructionView::PartiallyDecoded(
                p@,
            ),
        }
    }
}

/// An instruction in one of its display forms.
#[derive(Clone, Debug, PartialEq, Eq)]
pub enum UiInstruction {
    Compiled(UiCompiledInstruction),
    Parsed(UiParsedInstruction),
}

/// Mathematical value of a [`UiInstruction`].
pub enum UiInstructionView {
    Compiled(UiCompiledInstructionView),
    Parsed(UiParsedInstructionView),
}

impl View for UiInstruction {
    type V = UiInstructionView;

    open spec fn view(&self) -> UiInstructionView {
        match self {
            UiInstruction::Compiled(c) => UiInstructionView::Compiled(c@),
            UiInstruction::Parsed(p) => UiInstructionView::Parsed(p@),
        }
    }
}

impl DeepView for UiInstruction {
    type V = UiInstructionView;

    open spec fn deep_view(&self) -> UiInstructionView {
        self@
    }
}

/// The display form by position of an instruction.
pub open spec fn compiled_ui(instruction: CompiledInstructionView) -> UiCompiledInstructionView {
    UiCompiledInstructionView {
        program_id_index: instruction.program_id_index,
        accounts: instruction.accounts,
        data: base58_text(instruction.data),
    }
}

/// The display form by address of an instruction, against the account list
/// that its positions refer to.
pub open spec fn partially_decoded(
    instruction: CompiledInstructionView,
    account_keys: Seq<Seq<u8>>,
) -> UiPartiallyDecodedInstructionView {
    UiPartiallyDecodedInstructionView {
        program_id: base58_text(account_keys[instruction.program_id_index as int]),
        accounts: Seq::new(
            instruction.accounts.len(),
            |j: int| base58_text(account_keys[instruction.accounts[j] as int]),
        ),
        data: base58_text(instruction.data),
    }
}

/// The display form of an instruction when decoders are consulted: the
/// structured form where decoding succeeds, the form by address wherever it
/// fails.
pub open spec fn parsed_ui(
    parsers: Seq<ProgramParserView>,
    instruction: CompiledInstructionView,
    account_keys: Seq<Seq<u8>>,
) -> UiInstructionView {
    match parsed_instruction(
        parsers,
        account_keys[instruction.program_id_index as int],
        instruction,
        account_keys,
    ) {
        Ok(parsed) => UiInstructionView::Parsed(UiParsedInstructionView::Parsed(parsed)),
        Err(_) => UiInstructionView::Parsed(
            UiParsedInstructionView::PartiallyDecoded(partially_decoded(instruction, account_keys)),
        ),
    }
}

impl UiCompiledInstruction {
    /// Shows an instruction by position.
    pub fn from(instruction: &CompiledInstruction) -> (ui: UiCompiledInstruction)
        ensures
            ui@ == compiled_ui(instruction@),
    {
        UiCompiledInstruction {
            program_id_index: instruction.program_id_index,
            accounts: instruction.accounts.clone(),
            data: base58_encode(instruction.data.as_slice()),
        }
    }
}

impl UiPartiallyDecodedInstruction {
    /// Shows an instruction by address. Succeeds for every instruction whose
    /// positions lie inside the account list.
    pub fn from(instruction: &CompiledInstruction, account_keys: &Vec<Pubkey>) -> (ui:
        UiPartiallyDecodedInstruction)
        requires
            instruction@.indices_below(account_keys.len() as nat),
        ensures
            ui@ == partially_decoded(instruction@, account_keys.deep_view()),
    {
        let mut accounts: Vec<String> = Vec::new();
        let mut j: usize = 0;
        while j < instruction.accounts.len()
            invariant
                j <= instruction.accounts.len(),
                instruction@.indices_below(account_keys.len() as nat),
                accounts.len() == j,
                forall|i: int|
                    0 <= i < j ==> (#[trigger] accounts[i])@ == base58_text(
                        account_keys[instruction.accounts[i] as int]@,
                    ),
            decreases instruction.accounts.len() - j,
        {
            let position: usize = instruction.accounts[j] as usize;
            assert((instruction@.accounts[j as int] as nat) < account_keys.len());
            accounts.push(account_keys[position].to_string());
            j += 1;
        }
        let ui = UiPartiallyDecodedInstruction {
            program_id: account_keys[instruction.program_id_index as usize].to_string(),
            accounts,
            data: base58_encode(instruction.data.as_slice()),
        };
        assert(ui@.accounts =~= partially_decoded(instruction@, account_keys.deep_view()).accounts);
        ui
    }
}

impl UiInstruction {
    /// Shows an instruction by address, consulting the decoders of
    /// `registry`. Never fails: an instruction that is not decoded is shown
    /// partially decoded.
    pub fn parse_with(
        instruction: &CompiledInstruction,
        account_keys: &Vec<Pubkey>,
        registry: &ParserRegistry,
    ) -> (ui: UiInstruction)
        requires
            instruction@.indices_below(account_keys.len() as nat),
        ensures
            ui@ == parsed_ui(registry@, instruction@, account_keys.deep_view()),
    {
        let program_id = &account_keys[instruction.program_id_index as usize];
        match registry.parse(program_id, instruction, account_keys) {
            Ok(parsed) => UiInstruction::Parsed(UiParsedInstruction::Parsed(parsed)),
            Err(_) => UiInstruction::Parsed(
                UiParsedInstruction::PartiallyDecoded(
                    UiPartiallyDecodedInstruction::from(instruction, account_keys),
                ),
            ),
        }
    }

    /// Shows an instruction of `message` by address, consulting the decoders
    /// of the known programs.
    pub fn parse(instruction: &CompiledInstruction, message: &Message) -> (ui: UiInstruction)
        requires
            instruction@.indices_below(message.account_keys.len() as nat),
        ensures
            ui@ == parsed_ui(builtin_parsers(), instruction@, message@.account_keys),
    {
        let registry = ParserRegistry::builtin();
        UiInstruction::parse_with(instruction, &message.account_keys, &registry)
    }
}

/// The instructions that one instruction of a transaction invoked.
#[derive(Clone, Debug, PartialEq, Eq)]
pub struct InnerInstructions {
    /// Position of the invoking instruction in the transaction.
    pub index: u8,
    /// The invoked instructions, in order.
    pub instructions: Vec<CompiledInstruction>,
}

/// Mathematical value of an [`InnerInstructions`].
pub struct InnerInstructionsView {
    pub index: u8,
    pub instructions: Seq<CompiledInstructionView>,
}

impl View for InnerInstructions {
    type V = InnerInstructionsView;

    open spec fn view(&self) -> InnerInstructionsView {
        InnerInstructionsView { index: self.index, instructions: self.instructions.deep_view() }
    }
}

impl DeepView for InnerInstructions {
    type V = InnerInstructionsView;

    open spec fn deep_view(&self) -> InnerInstructionsView {
        self@
    }
}

impl InnerInstructionsView {
    /// Every invoked instruction names only positions of an account list of
    /// `n` entries.
    pub open spec fn indices_below(self, n: nat) -> bool {
        forall|k: int|
            0 <= k < self.instructions.len() ==> (#[trigger] self.instructions[k]).indices_below(n)
    }
}

/// The display form of an [`InnerInstructions`].
#[derive(Clone, Debug, PartialEq, Eq)]
pub struct UiInnerInstructions {
    /// Position of the invoking instruction in the transaction.
    pub index: u8,
    /// The invoked instructions, in order.
    pub instructions: Vec<UiInstruction>,
}

/// Mathematical value of a [`UiInnerInstructions`].
pub struct UiInnerInstructionsView {
    pub index: u8,
    pub instructions: Seq<UiInstructionView>,
}

impl View for UiInnerInstructions {
    type V = UiInnerInstructionsView;

    open spec fn view(&self) -> UiInnerInstructionsView {
        UiInnerInstructionsView { index: self.index, instructions: self.instructions.deep_view() }
    }
}

impl DeepView for UiInnerInstructions {
    type V = UiInnerInstructionsView;

    open spec fn deep_view(&self) -> UiInnerInstructionsView {
        self@
    }
}

/// Invoked instructions shown by position.
pub open spec fn compiled_inner(inner: InnerInstructionsView) -> UiInnerInstructionsView {
    UiInnerInstructionsView {
        index: inner.index,
        instructions: Seq::new(
            inner.instructions.len(),
            |k: int| UiInstructionView::Compiled(compiled_ui(inner.instructions[k])),
        ),
    }
}

/// Invoked instructions shown by address, against the account list of the
/// transaction that invoked them.
pub open spec fn parsed_inner(
    parsers: Seq<ProgramParserView>,
    inner: InnerInstructionsView,
    account_keys: Seq<Seq<u8>>,
) -> UiInnerInstructionsView {
    UiInnerInstructionsView {
        index: inner.index,
        instructions: Seq::new(
            inner.instructions.len(),
            |k: int| parsed_ui(parsers, inner.instructions[k], account_keys),
        ),
    }
}

/// Shows each instruction of a list by position.
pub fn compiled_instructions(instructions: &Vec<CompiledInstruction>) -> (shown: Vec<UiInstruction>)
    ensures
        shown.deep_view() == Seq::new(
            instructions.len() as nat,
            |k: int| UiInstructionView::Compiled(compiled_ui(instructions.deep_view()[k])),
        ),
{
    let mut shown: Vec<UiInstruction> = Vec::new();
    let mut k: usize = 0;
    while k < instructions.len()
        invariant
            k <= instructions.len(),
            shown.len() == k,
            forall|i: int|
                0 <= i < k ==> (#[trigger] shown[i])@ == UiInstructionView::Compiled(
                    compiled_ui(instructions[i]@),
                ),
        decreases instructions.len() - k,
    {
        shown.push(UiInstruction::Compiled(UiCompiledInstruction::from(&instructions[k])));
        k += 1;
    }
    assert(shown.deep_view() =~= Seq::new(
        instructions.len() as nat,
        |k: int| UiInstructionView::Compiled(compiled_ui(instructions.deep_view()[k])),
    ));
    shown
}

/// Shows each instruction of a list by address, consulting the decoders of
/// `registry`.
pub fn parsed_instructions(
    instructions: &Vec<CompiledInstruction>,
    account_keys: &Vec<Pubkey>,
    registry: &ParserRegistry,
) -> (shown: Vec<UiInstruction>)
    requires
        forall|k: int|
            0 <= k < instructions.len() ==> (#[trigger] instructions.deep_view()[k]).indices_below(
                account_keys.len() as nat,
            ),
    ensures
        shown.deep_view() == Seq::new(
            instructions.len() as nat,
            |k: int| parsed_ui(registry@, instructions.deep_view()[k], account_keys.deep_view()),
        ),
{
    let mut shown: Vec<UiInstruction> = Vec::new();
    let mut k: usize = 0;
    while k < instructions.len()
        invariant
            k <= instructions.len(),
            shown.len() == k,
            forall|k: int|
                0 <= k < instructions.len() ==> (#[trigger] instructions.deep_view()[k]).indices_below(
                    account_keys.len() as nat,
                ),
            forall|i: int|
                0 <= i < k ==> (#[trigger] shown[i])@ == parsed_ui(
                    registry@,
                    instructions[i]@,
                    account_keys.deep_view(),
                ),
        decreases instructions.len() - k,
    {
        assert(instructions.deep_view()[k as int] == instructions[k as int]@);
        shown.push(UiInstruction::parse_with(&instructions[k], account_keys, registry));
        k += 1;
    }
    assert(shown.deep_view() =~= Seq::new(
        instructions.len() as nat,
        |k: int| parsed_ui(registry@, instructions.deep_view()[k], account_keys.deep_view()),
    ));
    shown
}

/// Shows invoked instructions by position.
pub(crate) fn show_inner_compiled(inner_instructions: &InnerInstructions) -> (ui:
    UiInnerInstructions)
    ensures
        ui@ == compiled_inner(inner_instructions@),
{
    let ui = UiInnerInstructions {
        index: inner_instructions.index,
        instructions: compiled_instructions(&inner_instructions.instructions),
    };
    assert(ui@.instructions =~= compiled_inner(inner_instructions@).instructions);
    ui
}

/// Shows invoked instructions by address.
pub(crate) fn show_inner_parsed(
    inner_instructions: &InnerInstructions,
    account_keys: &Vec<Pubkey>,
    registry: &ParserRegistry,
) -> (ui: UiInnerInstructions)
    requires
        inner_instructions@.indices_below(account_keys.len() as nat),
    ensures
        ui@ == parsed_inner(registry@, inner_instructions@, account_keys.deep_view()),
{
    assert forall|k: int| 0 <= k < inner_instructions.instructions.len() implies (
    #[trigger] inner_instructions.instructions.deep_view()[k]).indices_below(
        account_keys.len() as nat,
    ) by {
        assert(inner_instructions@.instructions[k].indices_below(account_keys.len() as nat));
    }
    let ui = UiInnerInstructions {
        index: inner_instructions.index,
        instructions: parsed_instructions(&inner_instructions.instructions, account_keys, registry),
    };
    assert(ui@.instructions =~= parsed_inner(
        registry@,
        inner_instructions@,
        account_keys.deep_view(),
    ).instructions);
    ui
}

impl UiInnerInstructions {
    /// Shows invoked instructions by position.
    pub fn from(inner_instructions: InnerInstructions) -> (ui: UiInnerInstructions)
        ensures
            ui@ == compiled_inner(inner_instructions@),
    {
        show_inner_compiled(&inner_instructions)
    }

    /// Shows invoked instructions by address, against the account list of
    /// the transaction that invoked them, consulting the decoders of
    /// `registry`.
    pub fn parse_with(
        inner_instructions: InnerInstructions,
        account_keys: &Vec<Pubkey>,
        registry: &ParserRegistry,
    ) -> (ui: UiInnerInstructions)
        requires
            inner_instructions@.indices_below(account_keys.len() as nat),
        ensures
            ui@ == parsed_inner(registry@, inner_instructions@, account_keys.deep_view()),
    {
        show_inner_parsed(&inner_instructions, account_keys, registry)
    }

    /// Shows invoked instructions by address, against the account list of
    /// `message`, consulting the decoders of the known programs.
    pub fn parse(inner_instructions: InnerInstructions, message: &Message) -> (ui:
        UiInnerInstructions)
        requires
            inner_instructions@.indices_below(message.account_keys.len() as nat),
        ensures
            ui@ == parsed_inner(builtin_parsers(), inner_instructions@, message@.account_keys),
    {
        let registry = ParserRegistry::builtin();
        show_inner_parsed(&inner_instructions, &message.account_keys, &registry)
    }
}

} // verus!
