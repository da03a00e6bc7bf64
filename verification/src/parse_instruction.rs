//! Structured decoding of instructions.
//!
//! A registry maps a program address to the layouts of the instructions that
//! the program understands. A layout names the leading bytes that select it,
//! the accounts that the instruction must pass, and the fixed-width values
//! that follow the leading bytes. Decoding either yields every named field or
//! fails as a whole.

use crate::model::{CompiledInstruction, CompiledInstructionView, Pubkey};
use crate::text::{base58_encode, base58_text};
use vstd::prelude::*;
use vstd::slice::slice_subrange;

verus! {

/// Why an instruction has no structured form.
#[derive(Clone, Copy, Debug, PartialEq, Eq, Structural)]
pub enum ParseInstructionError {
    /// No layout of the program matches the instruction data.
    InstructionNotParsable,
    /// The instruction passes fewer accounts than its layout names.
    InstructionKeyMismatch,
    /// No decoder is registered for the program.
    ProgramNotParsable,
}

/// The encoding of a value that follows the leading bytes of an instruction.
#[derive(Clone, Copy, Debug, PartialEq, Eq, Structural)]
pub enum FieldKind {
    /// One byte.
    U8,
    /// Four bytes, least significant first.
    U32,
    /// Eight bytes, least significant first.
    U64,
    /// The 32 bytes of an account address.
    Pubkey,
}

impl FieldKind {
    /// Number of bytes that a value of this kind occupies.
    pub open spec fn spec_width(self) -> nat {
        match self {
            FieldKind::U8 => 1,
            FieldKind::U32 => 4,
            FieldKind::U64 => 8,
            FieldKind::Pubkey => 32,
        }
    }

    /// Number of bytes that a value of this kind occupies.
    pub fn width(self) -> (w: usize)
        ensures
            w == self.spec_width(),
    {
        match self {
            FieldKind::U8 => 1,
            FieldKind::U32 => 4,
            FieldKind::U64 => 8,
            FieldKind::Pubkey => 32,
        }
    }
}

/// A named value in the data of an instruction.
#[derive(Clone, Debug, PartialEq, Eq)]
pub struct LiteralField {
    pub name: String,
    pub kind: FieldKind,
}

/// Mathematical value of a [`LiteralField`].
pub struct LiteralFieldView {
    pub name: Seq<char>,
    pub kind: FieldKind,
}

impl View for LiteralField {
    type V = LiteralFieldView;

    open spec fn view(&self) -> LiteralFieldView {
        LiteralFieldView { name: self.name@, kind: self.kind }
    }
}

impl DeepView for LiteralField {
    type V = LiteralFieldView;

    open spec fn deep_view(&self) -> LiteralFieldView {
        self@
    }
}

/// One instruction of a program: the leading bytes that select it, its name,
/// the names of the accounts it requires, and the values that follow the
/// leading bytes.
#[derive(Clone, Debug, PartialEq, Eq)]
pub struct InstructionLayout {
    pub discriminant: Vec<u8>,
    pub instruction_type: String,
    pub accounts: Vec<String>,
    pub literals: Vec<LiteralField>,
}

/// Mathematical value of an [`InstructionLayout`].
pub struct InstructionLayoutView {
    pub discriminant: Seq<u8>,
    pub instruction_type: Seq<char>,
    pub accounts: Seq<Seq<char>>,
    pub literals: Seq<LiteralFieldView>,
}

impl View for InstructionLayout {
    type V = InstructionLayoutView;

    open spec fn view(&self) -> InstructionLayoutView {
        InstructionLayoutView {
            discriminant: self.discriminant@,
            instruction_type: self.instruction_type@,
            accounts: self.accounts.deep_view(),
            literals: self.literals.deep_view(),
        }
    }
}

impl DeepView for InstructionLayout {
    type V = InstructionLayoutView;

    open spec fn deep_view(&self) -> InstructionLayoutView {
        self@
    }
}

/// The decoder of one program.
#[derive(Clone, Debug, PartialEq, Eq)]
pub struct ProgramParser {
    pub program_id: Pubkey,
    pub program: String,
    pub layouts: Vec<InstructionLayout>,
}

/// Mathematical value of a [`ProgramParser`].
pub struct ProgramParserView {
    pub program_id: Seq<u8>,
    pub program: Seq<char>,
    pub layouts: Seq<InstructionLayoutView>,
}

impl View for ProgramParser {
    type V = ProgramParserView;

    open spec fn view(&self) -> ProgramParserView {
        ProgramParserView {
            program_id: self.program_id@,
            program: self.program@,
            layouts: self.layouts.deep_view(),
        }
    }
}

impl DeepView for ProgramParser {
    type V = ProgramParserView;

    open spec fn deep_view(&self) -> ProgramParserView {
        self@
    }
}

/// The value of a decoded field.
#[derive(Clone, Debug, PartialEq, Eq)]
pub enum InfoValue {
    /// An account address as base-58 text.
    Pubkey(String),
    /// An unsigned number.
    Number(u64),
}

/// Mathematical value of an [`InfoValue`].
pub enum InfoValueView {
    Pubkey(Seq<char>),
    Number(u64),
}

impl View for InfoValue {
    type V = InfoValueView;

    open spec fn view(&self) -> InfoValueView {
        match self {
            InfoValue::Pubkey(text) => InfoValueView::Pubkey(text@),
            InfoValue::Number(n) => InfoValueView::Number(*n),
        }
    }
}

/// A decoded field with its name.
#[derive(Clone, Debug, PartialEq, Eq)]
pub struct InfoField {
    pub name: String,
    pub value: InfoValue,
}

/// Mathematical value of an [`InfoField`].
pub struct InfoFieldView {
    pub name: Seq<char>,
    pub value: InfoValueView,
}

impl View for InfoField {
    type V = InfoFieldView;

    open spec fn view(&self) -> InfoFieldView {
        InfoFieldView { name: self.name@, value: self.value@ }
    }
}

impl DeepView for InfoField {
    type V = InfoFieldView;

    open spec fn deep_view(&self) -> InfoFieldView {
        self@
    }
}

/// The name of a decoded instruction and its fields: first the accounts, in
/// the order of the layout, then the values, in the order of the layout.
#[derive(Clone, Debug, PartialEq, Eq)]
pub struct ParsedInfo {
    pub instruction_type: String,
    pub info: Vec<InfoField>,
}

/// Mathematical value of a [`ParsedInfo`].
pub struct ParsedInfoView {
    pub instruction_type: Seq<char>,
    pub info: Seq<InfoFieldView>,
}

impl View for ParsedInfo {
    type V = ParsedInfoView;

    open spec fn view(&self) -> ParsedInfoView {
        ParsedInfoView { instruction_type: self.instruction_type@, info: self.info.deep_view() }
    }
}

/// An instruction in structured form.
#[derive(Clone, Debug, PartialEq, Eq)]
pub struct ParsedInstruction {
    pub program: String,
    pub program_id: String,
    pub parsed: ParsedInfo,
}

/// Mathematical value of a [`ParsedInstruction`].
pub struct ParsedInstructionView {
    pub program: Seq<char>,
    pub program_id: Seq<char>,
    pub parsed: ParsedInfoView,
}

impl View for ParsedInstruction {
    type V = ParsedInstructionView;

    open spec fn view(&self) -> ParsedInstructionView {
        ParsedInstructionView {
            program: self.program@,
            program_id: self.program_id@,
            parsed: self.parsed@,
        }
    }
}

/// The number that four bytes hold, least significant byte first.
pub open spec fn le_u32(bytes: Seq<u8>) -> nat {
    (bytes[0] + bytes[1] * 0x100 + bytes[2] * 0x1_0000 + bytes[3] * 0x100_0000) as nat
}

/// The number that eight bytes hold, least significant byte first.
pub open spec fn le_u64(bytes: Seq<u8>) -> nat {
    le_u32(bytes.subrange(0, 4)) + 0x1_0000_0000 * le_u32(bytes.subrange(4, 8))
}

/// The value that `bytes` hold when read as `kind`; `bytes` has the width of
/// the kind.
pub open spec fn literal_value(kind: FieldKind, bytes: Seq<u8>) -> InfoValueView {
    match kind {
        FieldKind::U8 => InfoValueView::Number(bytes[0] as u64),
        FieldKind::U32 => InfoValueView::Number(le_u32(bytes) as u64),
        FieldKind::U64 => InfoValueView::Number(le_u64(bytes) as u64),
        FieldKind::Pubkey => InfoValueView::Pubkey(base58_text(bytes)),
    }
}

/// The values of `literals[k..]`, read from `data` starting at `offset`, or
/// `None` where `data` ends before the last of them.
pub open spec fn literal_fields(
    literals: Seq<LiteralFieldView>,
    data: Seq<u8>,
    k: int,
    offset: int,
) -> Option<Seq<InfoFieldView>>
    decreases literals.len() - k,
{
    if k < 0 || k >= literals.len() {
        Some(Seq::empty())
    } else {
        let end = offset + literals[k].kind.spec_width();
        if end > data.len() {
            None
        } else {
            match literal_fields(literals, data, k + 1, end) {
                None => None,
                Some(rest) => Some(
                    seq![
                        InfoFieldView {
                            name: literals[k].name,
                            value: literal_value(literals[k].kind, data.subrange(offset, end)),
                        },
                    ] + rest,
                ),
            }
        }
    }
}

/// The accounts that a layout names, each with the address that the
/// instruction passes at that place.
pub open spec fn account_fields(
    names: Seq<Seq<char>>,
    accounts: Seq<u8>,
    account_keys: Seq<Seq<u8>>,
) -> Seq<InfoFieldView> {
    Seq::new(
        names.len(),
        |j: int|
            InfoFieldView {
                name: names[j],
                value: InfoValueView::Pubkey(base58_text(account_keys[accounts[j] as int])),
            },
    )
}

/// Position of the first of `layouts[from..]` whose leading bytes begin
/// `data`.
pub open spec fn layout_index(layouts: Seq<InstructionLayoutView>, data: Seq<u8>, from: int)
    -> Option<int>
    decreases layouts.len() - from,
{
    if from < 0 || from >= layouts.len() {
        None
    } else if layouts[from].discriminant.is_prefix_of(data) {
        Some(from)
    } else {
        layout_index(layouts, data, from + 1)
    }
}

/// Position of the first of `parsers[from..]` that is registered for
/// `program_id`.
pub open spec fn parser_index(parsers: Seq<ProgramParserView>, program_id: Seq<u8>, from: int)
    -> Option<int>
    decreases parsers.len() - from,
{
    if from < 0 || from >= parsers.len() {
        None
    } else if parsers[from].program_id == program_id {
        Some(from)
    } else {
        parser_index(parsers, program_id, from + 1)
    }
}

/// Whether a decoder is registered for `program_id`.
pub open spec fn is_registered(parsers: Seq<ProgramParserView>, program_id: Seq<u8>) -> bool {
    parser_index(parsers, program_id, 0) is Some
}

/// What decoding an instruction with a given layout yields: nothing where
/// the data does not begin with the leading bytes of the layout, where the
/// instruction passes fewer accounts than the layout names, or where the
/// data ends before the last value of the layout.
pub open spec fn parsed_with_layout(
    layout: InstructionLayoutView,
    instruction: CompiledInstructionView,
    account_keys: Seq<Seq<u8>>,
) -> Result<ParsedInfoView, ParseInstructionError> {
    if !layout.discriminant.is_prefix_of(instruction.data) {
        Err(ParseInstructionError::InstructionNotParsable)
    } else if instruction.accounts.len() < layout.accounts.len() {
        Err(ParseInstructionError::InstructionKeyMismatch)
    } else {
        match literal_fields(
            layout.literals,
            instruction.data,
            0,
            layout.discriminant.len() as int,
        ) {
            None => Err(ParseInstructionError::InstructionNotParsable),
            Some(values) => Ok(
                ParsedInfoView {
                    instruction_type: layout.instruction_type,
                    info: account_fields(layout.accounts, instruction.accounts, account_keys)
                        + values,
                },
            ),
        }
    }
}

/// What decoding an instruction of the program `program_id` yields: the
/// structured form, or the reason why there is none.
pub open spec fn parsed_instruction(
    parsers: Seq<ProgramParserView>,
    program_id: Seq<u8>,
    instruction: CompiledInstructionView,
    account_keys: Seq<Seq<u8>>,
) -> Result<ParsedInstructionView, ParseInstructionError> {
    match parser_index(parsers, program_id, 0) {
        None => Err(ParseInstructionError::ProgramNotParsable),
        Some(p) => match layout_index(parsers[p].layouts, instruction.data, 0) {
            None => Err(ParseInstructionError::InstructionNotParsable),
            Some(l) => match parsed_with_layout(parsers[p].layouts[l], instruction, account_keys) {
                Err(e) => Err(e),
                Ok(parsed) => Ok(
                    ParsedInstructionView {
                        program: parsers[p].program,
                        program_id: base58_text(program_id),
                        parsed,
                    },
                ),
            },
        },
    }
}

/// Whether `prefix` begins `data`.
fn has_prefix(data: &Vec<u8>, prefix: &Vec<u8>) -> (yes: bool)
    ensures
        yes == prefix@.is_prefix_of(data@),
{
    if prefix.len() > data.len() {
        return false;
    }
    let mut i: usize = 0;
    while i < prefix.len()
        invariant
            i <= prefix.len() <= data.len(),
            forall|j: int| 0 <= j < i ==> prefix@[j] == data@[j],
        decreases prefix.len() - i,
    {
        if prefix[i] != data[i] {
            assert(data@.subrange(0, prefix@.len() as int)[i as int] != prefix@[i as int]);
            return false;
        }
        i += 1;
    }
    assert(prefix@ =~= data@.subrange(0, prefix@.len() as int));
    true
}

/// Reads four bytes at `offset`, least significant first.
fn read_u32(data: &Vec<u8>, offset: usize) -> (n: u64)
    requires
        offset + 4 <= data.len(),
    ensures
        n == le_u32(data@.subrange(offset as int, offset + 4)),
        n <= 0xffff_ffff,
{
    let b0: u64 = data[offset] as u64;
    let b1: u64 = data[offset + 1] as u64;
    let b2: u64 = data[offset + 2] as u64;
    let b3: u64 = data[offset + 3] as u64;
    b0 + b1 * 0x100 + b2 * 0x1_0000 + b3 * 0x100_0000
}

/// Reads the value of kind `kind` at `offset`.
fn read_value(kind: FieldKind, data: &Vec<u8>, offset: usize) -> (value: InfoValue)
    requires
        offset + kind.spec_width() <= data.len(),
    ensures
        value@ == literal_value(
            kind,
            data@.subrange(offset as int, offset + kind.spec_width()),
        ),
{
    match kind {
        FieldKind::U8 => InfoValue::Number(data[offset] as u64),
        FieldKind::U32 => InfoValue::Number(read_u32(data, offset)),
        FieldKind::U64 => {
            let low: u64 = read_u32(data, offset);
            let high: u64 = read_u32(data, offset + 4);
            proof {
                let whole = data@.subrange(offset as int, offset + 8);
                assert(whole.subrange(0, 4) =~= data@.subrange(offset as int, offset + 4));
                assert(whole.subrange(4, 8) =~= data@.subrange(offset + 4, offset + 8));
            }
            InfoValue::Number(low + 0x1_0000_0000 * high)
        },
        FieldKind::Pubkey => {
            let bytes = slice_subrange(data.as_slice(), offset, offset + 32);
            InfoValue::Pubkey(base58_encode(bytes))
        },
    }
}

/// Reads the values that a layout names from the data of an instruction,
/// starting at `offset`.
fn read_literals(literals: &Vec<LiteralField>, data: &Vec<u8>, offset: usize) -> (values: Option<
    Vec<InfoField>,
>)
    requires
        offset <= data.len(),
    ensures
        values.deep_view() == literal_fields(literals.deep_view(), data@, 0, offset as int),
{
    let ghost spec_literals = literals.deep_view();
    let mut values: Vec<InfoField> = Vec::new();
    let mut at: usize = offset;
    let mut k: usize = 0;
    while k < literals.len()
        invariant
            k <= literals.len(),
            at <= data.len(),
            spec_literals == literals.deep_view(),
            literal_fields(spec_literals, data@, 0, offset as int) == match literal_fields(
                spec_literals,
                data@,
                k as int,
                at as int,
            ) {
                None => None,
                Some(rest) => Some(values.deep_view() + rest),
            },
        decreases literals.len() - k,
    {
        let kind = literals[k].kind;
        let width: usize = kind.width();
        assert(spec_literals[k as int] == literals[k as int]@);
        if width > data.len() - at {
            return None;
        }
        let field = InfoField { name: literals[k].name.clone(), value: read_value(kind, data, at) };
        proof {
            let end = at + width;
            let old_values = values.deep_view();
            match literal_fields(spec_literals, data@, k + 1, end) {
                None => {},
                Some(rest) => {
                    assert((old_values + seq![field@]) + rest =~= old_values + (seq![field@]
                        + rest));
                },
            }
            assert(values.deep_view().push(field@) =~= old_values + seq![field@]);
        }
        let ghost before = values.deep_view();
        values.push(field);
        assert(values.deep_view() =~= before.push(field@));
        at = at + width;
        k += 1;
    }
    assert(values.deep_view() + Seq::<InfoFieldView>::empty() =~= values.deep_view());
    Some(values)
}

/// Resolves the accounts that a layout names.
fn read_accounts(names: &Vec<String>, instruction: &CompiledInstruction, account_keys: &Vec<Pubkey>)
    -> (fields: Vec<InfoField>)
    requires
        names.len() <= instruction.accounts.len(),
        instruction@.indices_below(account_keys.len() as nat),
    ensures
        fields.deep_view() == account_fields(
            names.deep_view(),
            instruction.accounts@,
            account_keys.deep_view(),
        ),
{
    let mut fields: Vec<InfoField> = Vec::new();
    let mut j: usize = 0;
    while j < names.len()
        invariant
            j <= names.len() <= instruction.accounts.len(),
            instruction@.indices_below(account_keys.len() as nat),
            fields.len() == j,
            forall|i: int|
                0 <= i < j ==> (#[trigger] fields[i])@ == account_fields(
                    names.deep_view(),
                    instruction.accounts@,
                    account_keys.deep_view(),
                )[i],
        decreases names.len() - j,
    {
        let position: usize = instruction.accounts[j] as usize;
        assert((instruction@.accounts[j as int] as nat) < account_keys.len());
        let field = InfoField {
            name: names[j].clone(),
            value: InfoValue::Pubkey(account_keys[position].to_string()),
        };
        fields.push(field);
        j += 1;
    }
    assert(fields.deep_view() =~= account_fields(
        names.deep_view(),
        instruction.accounts@,
        account_keys.deep_view(),
    ));
    fields
}

impl InstructionLayout {
    /// Whether the data of an instruction begins with the leading bytes of
    /// this layout.
    pub fn selects(&self, data: &Vec<u8>) -> (yes: bool)
        ensures
            yes == self.discriminant@.is_prefix_of(data@),
    {
        has_prefix(data, &self.discriminant)
    }

    /// Decodes an instruction with this layout.
    pub fn parse(&self, instruction: &CompiledInstruction, account_keys: &Vec<Pubkey>) -> (parsed:
        Result<ParsedInfo, ParseInstructionError>)
        requires
            instruction@.indices_below(account_keys.len() as nat),
        ensures
            match parsed {
                Ok(info) => Ok(info@),
                Err(e) => Err(e),
            } == parsed_with_layout(self@, instruction@, account_keys.deep_view()),
    {
        if !self.selects(&instruction.data) {
            return Err(ParseInstructionError::InstructionNotParsable);
        }
        if instruction.accounts.len() < self.accounts.len() {
            return Err(ParseInstructionError::InstructionKeyMismatch);
        }
        match read_literals(&self.literals, &instruction.data, self.discriminant.len()) {
            None => Err(ParseInstructionError::InstructionNotParsable),
            Some(values) => {
                let mut info = read_accounts(&self.accounts, instruction, account_keys);
                let ghost accounts = info.deep_view();
                let mut values = values;
                let ghost rest = values.deep_view();
                info.append(&mut values);
                assert(info.deep_view() =~= accounts + rest);
                Ok(ParsedInfo { instruction_type: self.instruction_type.clone(), info })
            },
        }
    }
}

impl ProgramParser {
    /// Position of the first layout whose leading bytes begin `data`.
    pub fn find_layout(&self, data: &Vec<u8>) -> (found: Option<usize>)
        ensures
            match found {
                Some(l) => Some(l as int),
                None => None,
            } == layout_index(self@.layouts, data@, 0),
            found matches Some(l) ==> l < self.layouts.len()
                && self.layouts[l as int].discriminant@.is_prefix_of(data@),
    {
        let mut l: usize = 0;
        while l < self.layouts.len()
            invariant
                l <= self.layouts.len(),
                layout_index(self@.layouts, data@, 0) == layout_index(self@.layouts, data@, l as int),
            decreases self.layouts.len() - l,
        {
            assert(self@.layouts[l as int] == self.layouts[l as int]@);
            if self.layouts[l].selects(data) {
                return Some(l);
            }
            l += 1;
        }
        None
    }
}

/// The decoders of the programs that can be shown in structured form.
#[derive(Clone, Debug, PartialEq, Eq)]
pub struct ParserRegistry {
    pub parsers: Vec<ProgramParser>,
}

impl View for ParserRegistry {
    type V = Seq<ProgramParserView>;

    open spec fn view(&self) -> Seq<ProgramParserView> {
        self.parsers.deep_view()
    }
}

impl ParserRegistry {
    /// A registry without decoders.
    pub fn new() -> (registry: ParserRegistry)
        ensures
            registry@ == Seq::<ProgramParserView>::empty(),
    {
        let registry = ParserRegistry { parsers: Vec::new() };
        assert(registry@ =~= Seq::<ProgramParserView>::empty());
        registry
    }

    /// Position of the decoder that is registered for `program_id`.
    pub fn find(&self, program_id: &Pubkey) -> (found: Option<usize>)
        ensures
            match found {
                Some(p) => Some(p as int),
                None => None,
            } == parser_index(self@, program_id@, 0),
            found matches Some(p) ==> p < self.parsers.len(),
    {
        let mut p: usize = 0;
        while p < self.parsers.len()
            invariant
                p <= self.parsers.len(),
                parser_index(self@, program_id@, 0) == parser_index(self@, program_id@, p as int),
            decreases self.parsers.len() - p,
        {
            assert(self@[p as int] == self.parsers[p as int]@);
            if self.parsers[p].program_id.same_as(program_id) {
                return Some(p);
            }
            p += 1;
        }
        None
    }

    /// Adds a decoder, unless one is registered for the same program already.
    /// Returns whether the decoder was added.
    pub fn register(&mut self, parser: ProgramParser) -> (added: bool)
        ensures
            added == !is_registered(old(self)@, parser@.program_id),
            added ==> final(self)@ == old(self)@.push(parser@),
            !added ==> final(self)@ == old(self)@,
    {
        match self.find(&parser.program_id) {
            Some(_) => false,
            None => {
                let ghost before = self@;
                let ghost added_view = parser@;
                self.parsers.push(parser);
                assert(self@ =~= before.push(added_view));
                true
            },
        }
    }

    /// Decodes an instruction of the program `program_id` into its structured
    /// form. Fails as a whole where no decoder is registered for the program,
    /// no layout matches the data, the data is too short for the values of
    /// the layout, or the instruction passes too few accounts.
    pub fn parse(
        &self,
        program_id: &Pubkey,
        instruction: &CompiledInstruction,
        account_keys: &Vec<Pubkey>,
    ) -> (parsed: Result<ParsedInstruction, ParseInstructionError>)
        requires
            instruction@.indices_below(account_keys.len() as nat),
        ensures
            match parsed {
                Ok(p) => Ok(p@),
                Err(e) => Err(e),
            } == parsed_instruction(self@, program_id@, instruction@, account_keys.deep_view()),
    {
        let p: usize = match self.find(program_id) {
            None => {
                return Err(ParseInstructionError::ProgramNotParsable);
            },
            Some(p) => p,
        };
        let parser = &self.parsers[p];
        assert(self@[p as int] == parser@);
        let l: usize = match parser.find_layout(&instruction.data) {
            None => {
                return Err(ParseInstructionError::InstructionNotParsable);
            },
            Some(l) => l,
        };
        let layout = &parser.layouts[l];
        assert(parser@.layouts[l as int] == layout@);
        match layout.parse(instruction, account_keys) {
            Err(e) => Err(e),
            Ok(parsed) => Ok(
                ParsedInstruction {
                    program: parser.program.clone(),
                    program_id: program_id.to_string(),
                    parsed,
                },
            ),
        }
    }
}

} // verus!
