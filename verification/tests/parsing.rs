use transaction_status::parse_accounts::{parse_accounts, ParsedAccount, ParsedAccountSource};
use transaction_status::parse_instruction::{
    FieldKind, InfoField, InfoValue, InstructionLayout, LiteralField, ParseInstructionError,
    ParsedInfo, ParsedInstruction, ParserRegistry, ProgramParser,
};
use transaction_status::{
    Blockhash, CompiledInstruction, EncodedTransaction, Message, MessageHeader,
    Pubkey as Address, Transaction, UiCompiledInstruction, UiInstruction, UiMessage,
    UiParsedInstruction, UiPartiallyDecodedInstruction, UiTransactionEncoding,
};

fn key(n: u8) -> Address {
    Address::new_from_array([n; 32])
}

fn text(n: u8) -> String {
    bs58::encode([n; 32]).into_string()
}

fn four_account_message(instructions: Vec<CompiledInstruction>) -> Message {
    Message {
        header: MessageHeader {
            num_required_signatures: 2,
            num_readonly_signed_accounts: 1,
            num_readonly_unsigned_accounts: 1,
        },
        account_keys: vec![key(1), key(2), key(3), key(4)],
        recent_blockhash: Blockhash::new_from_array([5u8; 32]),
        instructions,
    }
}

fn account(n: u8, signer: bool, writable: bool) -> ParsedAccount {
    ParsedAccount {
        pubkey: text(n),
        writable,
        signer,
        source: Some(ParsedAccountSource::Transaction),
    }
}

fn field(name: &str, value: InfoValue) -> InfoField {
    InfoField { name: name.to_string(), value }
}

#[test]
fn four_bands_are_classified() {
    let message = four_account_message(vec![]);
    assert_eq!(
        parse_accounts(&message),
        vec![
            account(1, true, true),
            account(2, true, false),
            account(3, false, true),
            account(4, false, false),
        ]
    );
    assert!(message.is_signer(0) && message.is_writable(0));
    assert!(message.is_signer(1) && !message.is_writable(1));
    assert!(!message.is_signer(2) && message.is_writable(2));
    assert!(!message.is_signer(3) && !message.is_writable(3));
    assert!(!message.is_signer(4) && !message.is_writable(4));
}

#[test]
fn classification_agrees_with_ledger() {
    for signed in 0..4u8 {
        for readonly_signed in 0..=signed {
            for readonly_unsigned in 0..=(4 - signed) {
                let mut message = four_account_message(vec![]);
                message.header = MessageHeader {
                    num_required_signatures: signed,
                    num_readonly_signed_accounts: readonly_signed,
                    num_readonly_unsigned_accounts: readonly_unsigned,
                };
                let ledger = solana_sdk::message::Message {
                    header: solana_sdk::message::MessageHeader {
                        num_required_signatures: signed,
                        num_readonly_signed_accounts: readonly_signed,
                        num_readonly_unsigned_accounts: readonly_unsigned,
                    },
                    account_keys: vec![solana_sdk::pubkey::Pubkey::default(); 4],
                    recent_blockhash: solana_sdk::hash::Hash::default(),
                    instructions: vec![],
                };
                for i in 0..4 {
                    assert_eq!(message.is_signer(i), ledger.is_signer(i));
                    assert_eq!(message.is_writable(i), ledger.is_writable(i));
                }
            }
        }
    }
}

#[test]
fn malformed_header_is_classified_without_panic() {
    let mut message = four_account_message(vec![]);
    message.header = MessageHeader {
        num_required_signatures: 1,
        num_readonly_signed_accounts: 3,
        num_readonly_unsigned_accounts: 9,
    };
    assert!(message.is_signer(0));
    for i in 0..4 {
        assert!(!message.is_writable(i));
    }
}

#[test]
fn unregistered_program_is_partially_decoded() {
    let instruction =
        CompiledInstruction { program_id_index: 2, accounts: vec![0, 1], data: vec![9, 8, 7] };
    let message = four_account_message(vec![instruction.clone()]);
    let expected = UiPartiallyDecodedInstruction {
        program_id: text(3),
        accounts: vec![text(1), text(2)],
        data: bs58::encode([9u8, 8, 7]).into_string(),
    };
    assert_eq!(
        UiPartiallyDecodedInstruction::from(&instruction, &message.account_keys),
        expected
    );
    assert_eq!(
        UiInstruction::parse(&instruction, &message),
        UiInstruction::Parsed(UiParsedInstruction::PartiallyDecoded(expected.clone()))
    );
    let tx = Transaction { signatures: vec![], message };
    match EncodedTransaction::encode(tx, UiTransactionEncoding::JsonParsed) {
        EncodedTransaction::Json(ui) => match ui.message {
            UiMessage::Parsed(parsed) => {
                assert_eq!(parsed.account_keys.len(), 4);
                assert_eq!(
                    parsed.instructions,
                    vec![UiInstruction::Parsed(UiParsedInstruction::PartiallyDecoded(expected))]
                );
            }
            _ => panic!("expected the parsed form"),
        },
        _ => panic!("expected a structured view"),
    }
}

#[test]
fn compiled_form_keeps_positions() {
    let instruction =
        CompiledInstruction { program_id_index: 2, accounts: vec![0, 1], data: vec![0, 0, 1] };
    assert_eq!(
        UiCompiledInstruction::from(&instruction),
        UiCompiledInstruction {
            program_id_index: 2,
            accounts: vec![0, 1],
            data: bs58::encode([0u8, 0, 1]).into_string(),
        }
    );
}

fn system_message(data: Vec<u8>, accounts: Vec<u8>) -> (CompiledInstruction, Vec<Address>) {
    let instruction = CompiledInstruction { program_id_index: 2, accounts, data };
    (instruction, vec![key(1), key(2), key(0)])
}

#[test]
fn system_transfer_is_parsed() {
    let mut data = vec![2, 0, 0, 0];
    data.extend_from_slice(&0x0102_0304_0506_0708u64.to_le_bytes());
    let (instruction, keys) = system_message(data, vec![0, 1]);
    let registry = ParserRegistry::builtin();
    assert_eq!(
        registry.parse(&keys[2], &instruction, &keys),
        Ok(ParsedInstruction {
            program: "system".to_string(),
            program_id: "11111111111111111111111111111111".to_string(),
            parsed: ParsedInfo {
                instruction_type: "transfer".to_string(),
                info: vec![
                    field("source", InfoValue::Pubkey(text(1))),
                    field("destination", InfoValue::Pubkey(text(2))),
                    field("lamports", InfoValue::Number(0x0102_0304_0506_0708)),
                ],
            },
        })
    );
}

#[test]
fn system_transfer_matches_ledger_instruction() {
    let from = solana_sdk::pubkey::Pubkey::new(&[1u8; 32]);
    let to = solana_sdk::pubkey::Pubkey::new(&[2u8; 32]);
    let ledger = solana_sdk::system_instruction::transfer(&from, &to, u64::MAX - 5);
    let (instruction, keys) = system_message(ledger.data, vec![0, 1]);
    let parsed = ParserRegistry::builtin().parse(&keys[2], &instruction, &keys).unwrap();
    assert_eq!(parsed.parsed.instruction_type, "transfer");
    assert_eq!(parsed.parsed.info[2], field("lamports", InfoValue::Number(u64::MAX - 5)));
}

#[test]
fn system_create_account_matches_ledger_instruction() {
    let from = solana_sdk::pubkey::Pubkey::new(&[1u8; 32]);
    let to = solana_sdk::pubkey::Pubkey::new(&[2u8; 32]);
    let owner = solana_sdk::pubkey::Pubkey::new(&[6u8; 32]);
    let ledger = solana_sdk::system_instruction::create_account(&from, &to, 77, 1 << 40, &owner);
    let (instruction, keys) = system_message(ledger.data, vec![0, 1]);
    let parsed = ParserRegistry::builtin().parse(&keys[2], &instruction, &keys).unwrap();
    assert_eq!(
        parsed.parsed,
        ParsedInfo {
            instruction_type: "createAccount".to_string(),
            info: vec![
                field("source", InfoValue::Pubkey(text(1))),
                field("newAccount", InfoValue::Pubkey(text(2))),
                field("lamports", InfoValue::Number(77)),
                field("space", InfoValue::Number(1 << 40)),
                field("owner", InfoValue::Pubkey(text(6))),
            ],
        }
    );
}

#[test]
fn system_assign_and_allocate_are_parsed() {
    let owner = solana_sdk::pubkey::Pubkey::new(&[6u8; 32]);
    let who = solana_sdk::pubkey::Pubkey::new(&[1u8; 32]);
    let assign = solana_sdk::system_instruction::assign(&who, &owner);
    let (instruction, keys) = system_message(assign.data, vec![0]);
    let parsed = ParserRegistry::builtin().parse(&keys[2], &instruction, &keys).unwrap();
    assert_eq!(parsed.parsed.instruction_type, "assign");
    assert_eq!(
        parsed.parsed.info,
        vec![field("account", InfoValue::Pubkey(text(1))), field("owner", InfoValue::Pubkey(text(6)))]
    );
    let allocate = solana_sdk::system_instruction::allocate(&who, 4096);
    let (instruction, keys) = system_message(allocate.data, vec![1]);
    let parsed = ParserRegistry::builtin().parse(&keys[2], &instruction, &keys).unwrap();
    assert_eq!(parsed.parsed.instruction_type, "allocate");
    assert_eq!(
        parsed.parsed.info,
        vec![field("account", InfoValue::Pubkey(text(2))), field("space", InfoValue::Number(4096))]
    );
}

#[test]
fn parse_errors() {
    let registry = ParserRegistry::builtin();
    let (instruction, keys) = system_message(vec![2, 0, 0, 0, 1, 0, 0, 0, 0, 0, 0, 0], vec![0, 1]);
    assert_eq!(
        registry.parse(&keys[0], &instruction, &keys),
        Err(ParseInstructionError::ProgramNotParsable)
    );
    let (unknown, _) = system_message(vec![200, 0, 0, 0], vec![0, 1]);
    assert_eq!(
        registry.parse(&keys[2], &unknown, &keys),
        Err(ParseInstructionError::InstructionNotParsable)
    );
    let (short, _) = system_message(vec![2, 0, 0, 0, 1, 0, 0], vec![0, 1]);
    assert_eq!(
        registry.parse(&keys[2], &short, &keys),
        Err(ParseInstructionError::InstructionNotParsable)
    );
    let (empty, _) = system_message(vec![], vec![0, 1]);
    assert_eq!(
        registry.parse(&keys[2], &empty, &keys),
        Err(ParseInstructionError::InstructionNotParsable)
    );
    let (few, _) = system_message(vec![2, 0, 0, 0, 1, 0, 0, 0, 0, 0, 0, 0], vec![0]);
    assert_eq!(
        registry.parse(&keys[2], &few, &keys),
        Err(ParseInstructionError::InstructionKeyMismatch)
    );
}

#[test]
fn failed_parse_falls_back_wholesale() {
    let (short, keys) = system_message(vec![2, 0, 0, 0, 1], vec![0, 1]);
    let ui = UiInstruction::parse_with(&short, &keys, &ParserRegistry::builtin());
    assert_eq!(
        ui,
        UiInstruction::Parsed(UiParsedInstruction::PartiallyDecoded(
            UiPartiallyDecodedInstruction {
                program_id: text(0),
                accounts: vec![text(1), text(2)],
                data: bs58::encode([2u8, 0, 0, 0, 1]).into_string(),
            }
        ))
    );
}

fn counter_parser() -> ProgramParser {
    ProgramParser {
        program_id: key(9),
        program: "counter".to_string(),
        layouts: vec![
            InstructionLayout {
                discriminant: vec![1],
                instruction_type: "bump".to_string(),
                accounts: vec!["counter".to_string()],
                literals: vec![
                    LiteralField { name: "step".to_string(), kind: FieldKind::U8 },
                    LiteralField { name: "limit".to_string(), kind: FieldKind::U32 },
                ],
            },
            InstructionLayout {
                discriminant: vec![],
                instruction_type: "other".to_string(),
                accounts: vec![],
                literals: vec![],
            },
        ],
    }
}

#[test]
fn registered_decoder_is_used() {
    let mut registry = ParserRegistry::new();
    let keys = vec![key(5), key(9)];
    let instruction =
        CompiledInstruction { program_id_index: 1, accounts: vec![0, 0], data: vec![1, 3, 4, 3, 2, 1, 99] };
    assert_eq!(
        registry.parse(&keys[1], &instruction, &keys),
        Err(ParseInstructionError::ProgramNotParsable)
    );
    assert!(registry.register(counter_parser()));
    assert_eq!(
        registry.parse(&keys[1], &instruction, &keys),
        Ok(ParsedInstruction {
            program: "counter".to_string(),
            program_id: text(9),
            parsed: ParsedInfo {
                instruction_type: "bump".to_string(),
                info: vec![
                    field("counter", InfoValue::Pubkey(text(5))),
                    field("step", InfoValue::Number(3)),
                    field("limit", InfoValue::Number(0x0102_0304)),
                ],
            },
        })
    );
    let other = CompiledInstruction { program_id_index: 1, accounts: vec![], data: vec![7] };
    assert_eq!(
        registry.parse(&keys[1], &other, &keys).map(|p| p.parsed.instruction_type),
        Ok("other".to_string())
    );
}

#[test]
fn register_keeps_the_first_decoder() {
    let mut registry = ParserRegistry::builtin();
    assert_eq!(registry.find(&key(0)), Some(0));
    assert_eq!(registry.find(&key(9)), None);
    assert!(registry.register(counter_parser()));
    assert_eq!(registry.find(&key(9)), Some(1));
    let mut again = counter_parser();
    again.program = "impostor".to_string();
    assert!(!registry.register(again));
    assert_eq!(registry.parsers.len(), 2);
    assert_eq!(registry.parsers[1].program, "counter");
    assert_eq!(registry.parsers[1].find_layout(&vec![1, 2]), Some(0));
    assert_eq!(registry.parsers[1].find_layout(&vec![2]), Some(1));
    assert_eq!(FieldKind::U8.width(), 1);
    assert_eq!(FieldKind::U32.width(), 4);
    assert_eq!(FieldKind::U64.width(), 8);
    assert_eq!(FieldKind::Pubkey.width(), 32);
}

#[test]
fn layout_decodes_only_what_it_selects() {
    let parser = counter_parser();
    let keys = vec![key(5), key(9)];
    let bump = &parser.layouts[0];
    let instruction =
        CompiledInstruction { program_id_index: 1, accounts: vec![1], data: vec![1, 0, 0, 0, 0, 0] };
    assert!(bump.selects(&instruction.data));
    assert_eq!(
        bump.parse(&instruction, &keys),
        Ok(ParsedInfo {
            instruction_type: "bump".to_string(),
            info: vec![
                field("counter", InfoValue::Pubkey(text(9))),
                field("step", InfoValue::Number(0)),
                field("limit", InfoValue::Number(0)),
            ],
        })
    );
    let other = CompiledInstruction { program_id_index: 1, accounts: vec![1], data: vec![2, 0] };
    assert!(!bump.selects(&other.data));
    assert_eq!(bump.parse(&other, &keys), Err(ParseInstructionError::InstructionNotParsable));
    assert!(instruction.indices_below(2));
    assert!(!instruction.indices_below(1));
}

#[test]
fn free_parse_uses_known_programs() {
    let mut data = vec![2, 0, 0, 0];
    data.extend_from_slice(&1u64.to_le_bytes());
    let (instruction, keys) = system_message(data, vec![0, 1]);
    assert_eq!(
        transaction_status::parse_system::parse(&keys[2], &instruction, &keys),
        ParserRegistry::builtin().parse(&keys[2], &instruction, &keys)
    );
    assert_eq!(
        transaction_status::parse_system::parse(&keys[1], &instruction, &keys),
        Err(ParseInstructionError::ProgramNotParsable)
    );
}
