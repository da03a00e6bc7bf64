//! The decoders that every registry of known programs starts with: the
//! layouts of the system program's account and transfer instructions.

use crate::model::{CompiledInstruction, Pubkey};
use crate::parse_instruction::{
    parsed_instruction, FieldKind, InstructionLayout, InstructionLayoutView, LiteralField,
    LiteralFieldView, ParseInstructionError, ParsedInstruction, ParserRegistry, ProgramParser,
    ProgramParserView,
};
use vstd::prelude::*;

verus! {

/// The address of the system program: 32 zero bytes.
pub open spec fn system_program_id() -> Seq<u8> {
    Seq::new(32, |i: int| 0u8)
}

/// A named value of a layout.
pub open spec fn literal(name: Seq<char>, kind: FieldKind) -> LiteralFieldView {
    LiteralFieldView { name, kind }
}

/// The layout of an instruction of the system program, selected by its
/// number as four bytes, least significant first.
pub open spec fn system_layout(
    number: u8,
    instruction_type: Seq<char>,
    accounts: Seq<Seq<char>>,
    literals: Seq<LiteralFieldView>,
) -> InstructionLayoutView {
    InstructionLayoutView {
        discriminant: seq![number, 0u8, 0u8, 0u8],
        instruction_type,
        accounts,
        literals,
    }
}

/// The layouts of the system program that are shown in structured form.
pub open spec fn system_layouts() -> Seq<InstructionLayoutView> {
    seq![
        system_layout(
            0,
            "createAccount"@,
            seq!["source"@, "newAccount"@],
            seq![
                literal("lamports"@, FieldKind::U64),
                literal("space"@, FieldKind::U64),
                literal("owner"@, FieldKind::Pubkey),
            ],
        ),
        system_layout(
            1,
            "assign"@,
            seq!["account"@],
            seq![literal("owner"@, FieldKind::Pubkey)],
        ),
        system_layout(
            2,
            "transfer"@,
            seq!["source"@, "destination"@],
            seq![literal("lamports"@, FieldKind::U64)],
        ),
        system_layout(
            8,
            "allocate"@,
            seq!["account"@],
            seq![literal("space"@, FieldKind::U64)],
        ),
    ]
}

/// The decoders of the known programs.
pub open spec fn builtin_parsers() -> Seq<ProgramParserView> {
    seq![
        ProgramParserView {
            program_id: system_program_id(),
            program: "system"@,
            layouts: system_layouts(),
        },
    ]
}

fn make_literal(name: &str, kind: FieldKind) -> (field: LiteralField)
    ensures
        field@ == literal(name@, kind),
{
    LiteralField { name: name.to_owned(), kind }
}

fn make_names(names: &[&str]) -> (owned: Vec<String>)
    ensures
        owned.deep_view() == Seq::new(names@.len(), |i: int| names@[i]@),
{
    let mut owned: Vec<String> = Vec::new();
    let mut i: usize = 0;
    while i < names.len()
        invariant
            i <= names.len(),
            owned.len() == i,
            forall|j: int| 0 <= j < i ==> (#[trigger] owned[j])@ == names@[j]@,
        decreases names.len() - i,
    {
        owned.push(names[i].to_owned());
        i += 1;
    }
    assert(owned.deep_view() =~= Seq::new(names@.len(), |i: int| names@[i]@));
    owned
}

fn make_layout(number: u8, instruction_type: &str, accounts: &[&str], literals: Vec<LiteralField>)
    -> (layout: InstructionLayout)
    ensures
        layout@ == system_layout(
            number,
            instruction_type@,
            Seq::new(accounts@.len(), |i: int| accounts@[i]@),
            literals.deep_view(),
        ),
{
    let discriminant: Vec<u8> = vec![number, 0u8, 0u8, 0u8];
    assert(discriminant@ =~= seq![number, 0u8, 0u8, 0u8]);
    InstructionLayout {
        discriminant,
        instruction_type: instruction_type.to_owned(),
        accounts: make_names(accounts),
        literals,
    }
}

impl ProgramParser {
    /// The decoder of the system program.
    pub fn system() -> (parser: ProgramParser)
        ensures
            parser@ == builtin_parsers()[0],
    {
        let create_literals: Vec<LiteralField> = vec![
            make_literal("lamports", FieldKind::U64),
            make_literal("space", FieldKind::U64),
            make_literal("owner", FieldKind::Pubkey),
        ];
        let assign_literals: Vec<LiteralField> = vec![make_literal("owner", FieldKind::Pubkey)];
        let transfer_literals: Vec<LiteralField> = vec![make_literal("lamports", FieldKind::U64)];
        let allocate_literals: Vec<LiteralField> = vec![make_literal("space", FieldKind::U64)];
        let create_accounts: [&str; 2] = ["source", "newAccount"];
        let one_account: [&str; 1] = ["account"];
        let transfer_accounts: [&str; 2] = ["source", "destination"];
        let create = make_layout(0, "createAccount", create_accounts.as_slice(), create_literals);
        let assign = make_layout(1, "assign", one_account.as_slice(), assign_literals);
        let transfer = make_layout(2, "transfer", transfer_accounts.as_slice(), transfer_literals);
        let allocate = make_layout(8, "allocate", one_account.as_slice(), allocate_literals);
        proof {
            assert(create@.accounts =~= seq!["source"@, "newAccount"@]);
            assert(assign@.accounts =~= seq!["account"@]);
            assert(transfer@.accounts =~= seq!["source"@, "destination"@]);
            assert(allocate@.accounts =~= seq!["account"@]);
            assert(create@.literals =~= system_layouts()[0].literals);
            assert(assign@.literals =~= system_layouts()[1].literals);
            assert(transfer@.literals =~= system_layouts()[2].literals);
            assert(allocate@.literals =~= system_layouts()[3].literals);
        }
        let layouts: Vec<InstructionLayout> = vec![create, assign, transfer, allocate];
        assert(layouts.deep_view() =~= system_layouts());
        let zeros: [u8; 32] = [0u8; 32];
        assert(zeros@ =~= system_program_id());
        ProgramParser { program_id: Pubkey(zeros), program: "system".to_owned(), layouts }
    }
}

impl ParserRegistry {
    /// The registry of the known programs.
    pub fn builtin() -> (registry: ParserRegistry)
        ensures
            registry@ == builtin_parsers(),
    {
        let parsers: Vec<ProgramParser> = vec![ProgramParser::system()];
        let registry = ParserRegistry { parsers };
        assert(registry@ =~= builtin_parsers());
        registry
    }
}

/// Decodes an instruction of the program `program_id` with the decoders of
/// the known programs.
pub fn parse(
    program_id: &Pubkey,
    instruction: &CompiledInstruction,
    account_keys: &Vec<Pubkey>,
) -> (parsed: Result<ParsedInstruction, ParseInstructionError>)
    requires
        instruction@.indices_below(account_keys.len() as nat),
    ensures
        match parsed {
            Ok(p) => Ok(p@),
            Err(e) => Err(e),
        } == parsed_instruction(
            builtin_parsers(),
            program_id@,
            instruction@,
            account_keys.deep_view(),
        ),
{
    ParserRegistry::builtin().parse(program_id, instruction, account_keys)
}

} // verus!
