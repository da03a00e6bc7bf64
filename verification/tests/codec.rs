use transaction_status::{
    Blockhash, CompiledInstruction, EncodedTransaction, Message, MessageHeader, Pubkey, Signature,
    Transaction, UiMessage, UiTransactionEncoding,
};

fn key(n: u8) -> Pubkey {
    Pubkey::new_from_array([n; 32])
}

fn sample_transaction() -> Transaction {
    Transaction {
        signatures: vec![Signature::new_from_array([7u8; 64]), Signature::new_from_array([9u8; 64])],
        message: Message {
            header: MessageHeader {
                num_required_signatures: 2,
                num_readonly_signed_accounts: 1,
                num_readonly_unsigned_accounts: 1,
            },
            account_keys: vec![key(1), key(2), key(3), key(4)],
            recent_blockhash: Blockhash::new_from_array([5u8; 32]),
            instructions: vec![
                CompiledInstruction { program_id_index: 2, accounts: vec![0, 1], data: vec![1, 2, 3] },
                CompiledInstruction { program_id_index: 3, accounts: vec![], data: vec![] },
            ],
        },
    }
}

fn ledger_transaction(tx: &Transaction) -> solana_sdk::transaction::Transaction {
    let m = &tx.message;
    solana_sdk::transaction::Transaction {
        signatures: tx
            .signatures
            .iter()
            .map(|s| solana_sdk::signature::Signature::new(&s.0))
            .collect(),
        message: solana_sdk::message::Message {
            header: solana_sdk::message::MessageHeader {
                num_required_signatures: m.header.num_required_signatures,
                num_readonly_signed_accounts: m.header.num_readonly_signed_accounts,
                num_readonly_unsigned_accounts: m.header.num_readonly_unsigned_accounts,
            },
            account_keys: m
                .account_keys
                .iter()
                .map(|k| solana_sdk::pubkey::Pubkey::new(&k.0))
                .collect(),
            recent_blockhash: solana_sdk::hash::Hash::new(&m.recent_blockhash.0),
            instructions: m
                .instructions
                .iter()
                .map(|i| solana_sdk::instruction::CompiledInstruction {
                    program_id_index: i.program_id_index,
                    accounts: i.accounts.clone(),
                    data: i.data.clone(),
                })
                .collect(),
        },
    }
}

fn expected_wire_bytes() -> Vec<u8> {
    let mut bytes = vec![2u8];
    bytes.extend_from_slice(&[7u8; 64]);
    bytes.extend_from_slice(&[9u8; 64]);
    bytes.extend_from_slice(&[2, 1, 1]);
    bytes.push(4);
    for n in 1..=4u8 {
        bytes.extend_from_slice(&[n; 32]);
    }
    bytes.extend_from_slice(&[5u8; 32]);
    bytes.push(2);
    bytes.extend_from_slice(&[2, 2, 0, 1, 3, 1, 2, 3]);
    bytes.extend_from_slice(&[3, 0, 0]);
    bytes
}

#[test]
fn base58_round_trip() {
    let tx = sample_transaction();
    let encoded = EncodedTransaction::encode(tx.clone(), UiTransactionEncoding::Base58);
    assert_eq!(encoded.decode(), Some(tx));
}

#[test]
fn base64_round_trip() {
    let tx = sample_transaction();
    let encoded = EncodedTransaction::encode(tx.clone(), UiTransactionEncoding::Base64);
    assert_eq!(encoded.decode(), Some(tx));
}

#[test]
fn legacy_binary_round_trip() {
    let tx = sample_transaction();
    let encoded = EncodedTransaction::encode(tx.clone(), UiTransactionEncoding::Binary);
    assert!(matches!(encoded, EncodedTransaction::LegacyBinary(_)));
    assert_eq!(encoded.decode(), Some(tx));
}

#[test]
fn empty_transaction_round_trip() {
    let tx = Transaction {
        signatures: vec![],
        message: Message {
            header: MessageHeader {
                num_required_signatures: 0,
                num_readonly_signed_accounts: 0,
                num_readonly_unsigned_accounts: 0,
            },
            account_keys: vec![],
            recent_blockhash: Blockhash::new_from_array([0u8; 32]),
            instructions: vec![],
        },
    };
    let encoded = EncodedTransaction::encode(tx.clone(), UiTransactionEncoding::Base64);
    assert_eq!(encoded.decode(), Some(tx));
}

#[test]
fn legacy_and_base58_payloads_agree() {
    let tx = sample_transaction();
    let legacy = EncodedTransaction::encode(tx.clone(), UiTransactionEncoding::Binary);
    let tagged = EncodedTransaction::encode(tx, UiTransactionEncoding::Base58);
    match (legacy, tagged) {
        (EncodedTransaction::LegacyBinary(a), EncodedTransaction::Binary(b, tag)) => {
            assert_eq!(a, b);
            assert_eq!(tag, UiTransactionEncoding::Base58);
        }
        _ => panic!("unexpected variants"),
    }
}

#[test]
fn json_forms_do_not_decode() {
    let tx = sample_transaction();
    let raw = EncodedTransaction::encode(tx.clone(), UiTransactionEncoding::Json);
    let parsed = EncodedTransaction::encode(tx, UiTransactionEncoding::JsonParsed);
    assert_eq!(raw.decode(), None);
    assert_eq!(parsed.decode(), None);
}

#[test]
fn base58_payload_is_text_of_canonical_bytes() {
    let tx = sample_transaction();
    let bytes = expected_wire_bytes();
    assert_eq!(bincode::serialize(&ledger_transaction(&tx)).unwrap(), bytes);
    let encoded = EncodedTransaction::encode(tx, UiTransactionEncoding::Base58);
    assert_eq!(
        encoded,
        EncodedTransaction::Binary(bs58::encode(&bytes).into_string(), UiTransactionEncoding::Base58)
    );
    assert_eq!(encoded.payload_bytes(), Some(bytes));
}

#[test]
fn base64_payload_is_text_of_canonical_bytes() {
    let tx = sample_transaction();
    let bytes = expected_wire_bytes();
    let encoded = EncodedTransaction::encode(tx, UiTransactionEncoding::Base64);
    assert_eq!(
        encoded,
        EncodedTransaction::Binary(base64::encode(&bytes), UiTransactionEncoding::Base64)
    );
    assert_eq!(encoded.payload_bytes(), Some(bytes));
}

#[test]
fn decode_reads_text_made_elsewhere() {
    let tx = sample_transaction();
    let bytes = bincode::serialize(&ledger_transaction(&tx)).unwrap();
    let legacy = EncodedTransaction::LegacyBinary(bs58::encode(&bytes).into_string());
    assert_eq!(legacy.decode(), Some(tx.clone()));
    let tagged = EncodedTransaction::Binary(base64::encode(&bytes), UiTransactionEncoding::Base64);
    assert_eq!(tagged.decode(), Some(tx));
}

#[test]
fn known_text_values() {
    let bytes = vec![0x04, 0x30, 0x5e, 0x2b, 0x24, 0x73, 0xf0, 0x58];
    let b58 = EncodedTransaction::LegacyBinary("he11owor1d".to_string());
    assert_eq!(b58.payload_bytes(), Some(bytes));
    let b64 =
        EncodedTransaction::Binary("aGVsbG8gd29ybGQ=".to_string(), UiTransactionEncoding::Base64);
    assert_eq!(b64.payload_bytes(), Some(b"hello world".to_vec()));
    assert_eq!(key(0).to_string(), "11111111111111111111111111111111");
    assert_eq!(Blockhash::new_from_array([0u8; 32]).to_string(), "11111111111111111111111111111111");
    assert_eq!(Signature::new_from_array([0u8; 64]).to_string(), "1".repeat(64));
}

#[test]
fn decode_rejects_bad_text() {
    assert_eq!(EncodedTransaction::LegacyBinary("0OIl".to_string()).decode(), None);
    let bad64 = EncodedTransaction::Binary("***".to_string(), UiTransactionEncoding::Base64);
    assert_eq!(bad64.decode(), None);
    assert_eq!(bad64.payload_bytes(), None);
}

#[test]
fn decode_rejects_truncated_bytes() {
    let mut bytes = expected_wire_bytes();
    bytes.truncate(bytes.len() - 1);
    let truncated = EncodedTransaction::Binary(base64::encode(&bytes), UiTransactionEncoding::Base64);
    assert_eq!(truncated.decode(), None);
    let empty = EncodedTransaction::LegacyBinary(String::new());
    assert_eq!(empty.decode(), None);
}

#[test]
fn decode_rejects_other_tags() {
    let text = bs58::encode(expected_wire_bytes()).into_string();
    for tag in [
        UiTransactionEncoding::Binary,
        UiTransactionEncoding::Json,
        UiTransactionEncoding::JsonParsed,
    ] {
        assert_eq!(EncodedTransaction::Binary(text.clone(), tag).decode(), None);
    }
}

#[test]
fn json_form_is_raw_message() {
    let tx = sample_transaction();
    let encoded = EncodedTransaction::encode(tx.clone(), UiTransactionEncoding::Json);
    let ui = match encoded {
        EncodedTransaction::Json(ui) => ui,
        _ => panic!("expected a structured view"),
    };
    assert_eq!(
        ui.signatures,
        vec![bs58::encode([7u8; 64]).into_string(), bs58::encode([9u8; 64]).into_string()]
    );
    let raw = match ui.message {
        UiMessage::Raw(raw) => raw,
        _ => panic!("expected the raw form"),
    };
    assert_eq!(raw.header, tx.message.header);
    assert_eq!(raw.account_keys.len(), 4);
    assert_eq!(raw.account_keys[2], bs58::encode([3u8; 32]).into_string());
    assert_eq!(raw.recent_blockhash, bs58::encode([5u8; 32]).into_string());
    assert_eq!(raw.instructions.len(), 2);
    assert_eq!(raw.instructions[0].program_id_index, 2);
    assert_eq!(raw.instructions[0].accounts, vec![0, 1]);
    assert_eq!(raw.instructions[0].data, bs58::encode([1u8, 2, 3]).into_string());
    assert_eq!(raw.instructions[1].data, "");
}

#[test]
fn encoding_names() {
    assert_eq!(UiTransactionEncoding::Binary.to_string(), "binary");
    assert_eq!(UiTransactionEncoding::Base64.to_string(), "base64");
    assert_eq!(UiTransactionEncoding::Base58.to_string(), "base58");
    assert_eq!(UiTransactionEncoding::Json.to_string(), "json");
    assert_eq!(UiTransactionEncoding::JsonParsed.to_string(), "jsonParsed");
    for e in [
        UiTransactionEncoding::Binary,
        UiTransactionEncoding::Base64,
        UiTransactionEncoding::Base58,
        UiTransactionEncoding::Json,
        UiTransactionEncoding::JsonParsed,
    ] {
        assert_eq!(UiTransactionEncoding::from_name(&e.to_string()), Some(e));
    }
    assert_eq!(UiTransactionEncoding::from_name("jsonparsed"), None);
    assert_eq!(UiTransactionEncoding::from_name(""), None);
    assert_eq!(UiTransactionEncoding::from_name("hex"), None);
}

#[test]
fn oversized_transaction_is_not_encoded_in_binary() {
    let mut tx = sample_transaction();
    tx.message.instructions[0].data = vec![0u8; 65536];
    assert!(!tx.fits_wire());
    for encoding in [
        UiTransactionEncoding::Binary,
        UiTransactionEncoding::Base58,
        UiTransactionEncoding::Base64,
    ] {
        assert!(!EncodedTransaction::can_encode(&tx, encoding));
        assert_eq!(EncodedTransaction::try_encode(tx.clone(), encoding), None);
    }
    assert!(EncodedTransaction::can_encode(&tx, UiTransactionEncoding::Json));
    assert!(EncodedTransaction::try_encode(tx, UiTransactionEncoding::JsonParsed).is_some());
}

#[test]
fn largest_sequences_still_round_trip() {
    let mut tx = sample_transaction();
    tx.message.instructions[0].data = vec![3u8; 65535];
    tx.message.instructions[1].accounts = vec![1u8; 65535];
    assert!(tx.fits_wire());
    let encoded = EncodedTransaction::try_encode(tx.clone(), UiTransactionEncoding::Base64).unwrap();
    assert_eq!(encoded.decode(), Some(tx));
}

#[test]
fn dangling_position_is_not_encoded_in_parsed_form() {
    let mut tx = sample_transaction();
    tx.message.instructions[1].accounts = vec![4];
    assert!(!tx.message.indices_valid());
    assert!(!tx.message.is_well_formed());
    assert_eq!(EncodedTransaction::try_encode(tx.clone(), UiTransactionEncoding::JsonParsed), None);
    let raw = EncodedTransaction::try_encode(tx.clone(), UiTransactionEncoding::Json);
    assert_eq!(raw, Some(EncodedTransaction::encode(tx.clone(), UiTransactionEncoding::Json)));
    let binary = EncodedTransaction::try_encode(tx.clone(), UiTransactionEncoding::Base58).unwrap();
    assert_eq!(binary.decode(), Some(tx));
}

#[test]
fn try_encode_agrees_with_encode() {
    let tx = sample_transaction();
    assert!(tx.message.is_well_formed());
    for encoding in [
        UiTransactionEncoding::Binary,
        UiTransactionEncoding::Base58,
        UiTransactionEncoding::Base64,
        UiTransactionEncoding::Json,
        UiTransactionEncoding::JsonParsed,
    ] {
        assert_eq!(
            EncodedTransaction::try_encode(tx.clone(), encoding),
            Some(EncodedTransaction::encode(tx.clone(), encoding))
        );
    }
}

#[test]
fn overlapping_bands_are_not_well_formed() {
    let mut tx = sample_transaction();
    tx.message.header.num_readonly_unsigned_accounts = 3;
    assert!(tx.message.indices_valid());
    assert!(!tx.message.is_well_formed());
}
