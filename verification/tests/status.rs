use solana_sdk::transaction::TransactionError;
use transaction_status::{
    Blockhash, CommitmentConfig, CommitmentLevel, CompiledInstruction, ConfirmedBlock,
    ConfirmedTransaction, EncodedTransaction, InnerInstructions, Message, MessageHeader, Pubkey,
    Reward, Transaction, TransactionStatus, TransactionStatusMeta, TransactionWithStatusMeta,
    UiCompiledInstruction, UiInnerInstructions, UiInstruction, UiParsedInstruction,
    UiPartiallyDecodedInstruction, UiTransactionEncoding, UiTransactionStatusMeta,
};

#[test]
fn test_satisfies_commitment() {
    let status = TransactionStatus { slot: 0, confirmations: None, status: Ok(()), err: None };

    assert!(status.satisfies_commitment(CommitmentConfig::default()));
    assert!(status.satisfies_commitment(CommitmentConfig::recent()));

    let status = TransactionStatus { slot: 0, confirmations: Some(10), status: Ok(()), err: None };

    assert!(!status.satisfies_commitment(CommitmentConfig::default()));
    assert!(status.satisfies_commitment(CommitmentConfig::recent()));
}

#[test]
fn other_commitment_levels_are_never_met() {
    for confirmations in [None, Some(0), Some(10)] {
        let status = TransactionStatus { slot: 3, confirmations, status: Ok(()), err: None };
        assert!(!status.satisfies_commitment(CommitmentConfig::root()));
        assert!(!status.satisfies_commitment(CommitmentConfig::single()));
        assert!(!status.satisfies_commitment(CommitmentConfig::single_gossip()));
        assert!(status.satisfies_commitment(CommitmentConfig::recent()));
        assert_eq!(status.satisfies_commitment(CommitmentConfig::max()), confirmations.is_none());
    }
    assert_eq!(CommitmentConfig::default().commitment, CommitmentLevel::Max);
}

fn key(n: u8) -> Pubkey {
    Pubkey::new_from_array([n; 32])
}

fn text(n: u8) -> String {
    bs58::encode([n; 32]).into_string()
}

fn message() -> Message {
    Message {
        header: MessageHeader {
            num_required_signatures: 1,
            num_readonly_signed_accounts: 0,
            num_readonly_unsigned_accounts: 1,
        },
        account_keys: vec![key(1), key(2), key(3)],
        recent_blockhash: Blockhash::new_from_array([5u8; 32]),
        instructions: vec![CompiledInstruction {
            program_id_index: 2,
            accounts: vec![0, 1],
            data: vec![4],
        }],
    }
}

fn inner() -> InnerInstructions {
    InnerInstructions {
        index: 0,
        instructions: vec![CompiledInstruction {
            program_id_index: 1,
            accounts: vec![2, 0],
            data: vec![1, 1],
        }],
    }
}

fn meta(status: Result<(), TransactionError>) -> TransactionStatusMeta {
    TransactionStatusMeta {
        status,
        fee: 5000,
        pre_balances: vec![10, 20, 30],
        post_balances: vec![5, 25, 30],
        inner_instructions: Some(vec![inner()]),
        log_messages: Some(vec!["one".to_string(), "two".to_string()]),
    }
}

#[test]
fn default_meta_is_empty_success() {
    assert_eq!(
        TransactionStatusMeta::default(),
        TransactionStatusMeta {
            status: Ok(()),
            fee: 0,
            pre_balances: vec![],
            post_balances: vec![],
            inner_instructions: None,
            log_messages: None,
        }
    );
}

#[test]
fn shown_meta_mirrors_record() {
    let ui = UiTransactionStatusMeta::from(meta(Err(TransactionError::AccountInUse)));
    assert_eq!(ui.err, Some(TransactionError::AccountInUse));
    assert_eq!(ui.status, Err(TransactionError::AccountInUse));
    assert_eq!(ui.fee, 5000);
    assert_eq!(ui.pre_balances, vec![10, 20, 30]);
    assert_eq!(ui.post_balances, vec![5, 25, 30]);
    assert_eq!(ui.log_messages, Some(vec!["one".to_string(), "two".to_string()]));
    assert_eq!(
        ui.inner_instructions,
        Some(vec![UiInnerInstructions {
            index: 0,
            instructions: vec![UiInstruction::Compiled(UiCompiledInstruction {
                program_id_index: 1,
                accounts: vec![2, 0],
                data: bs58::encode([1u8, 1]).into_string(),
            })],
        }])
    );
    assert_eq!(UiInnerInstructions::from(inner()), ui.inner_instructions.unwrap()[0]);
}

#[test]
fn success_has_no_error() {
    let ui = UiTransactionStatusMeta::from(meta(Ok(())));
    assert_eq!(ui.err, None);
    assert_eq!(ui.status, Ok(()));
}

#[test]
fn absent_fields_stay_absent() {
    let mut record = meta(Ok(()));
    record.inner_instructions = None;
    record.log_messages = None;
    let shown = UiTransactionStatusMeta::from(record.clone());
    assert_eq!(shown.inner_instructions, None);
    assert_eq!(shown.log_messages, None);
    let parsed = UiTransactionStatusMeta::parse(record.clone(), &message());
    assert_eq!(parsed.inner_instructions, None);
    assert_eq!(parsed.log_messages, None);
    record.inner_instructions = Some(vec![]);
    record.log_messages = Some(vec![]);
    let shown = UiTransactionStatusMeta::from(record);
    assert_eq!(shown.inner_instructions, Some(vec![]));
    assert_eq!(shown.log_messages, Some(vec![]));
}

fn parsed_inner() -> UiInnerInstructions {
    UiInnerInstructions {
        index: 0,
        instructions: vec![UiInstruction::Parsed(UiParsedInstruction::PartiallyDecoded(
            UiPartiallyDecodedInstruction {
                program_id: text(2),
                accounts: vec![text(3), text(1)],
                data: bs58::encode([1u8, 1]).into_string(),
            },
        ))],
    }
}

#[test]
fn parsed_meta_resolves_inner_instructions_against_outer_accounts() {
    let ui = UiTransactionStatusMeta::parse(meta(Ok(())), &message());
    assert_eq!(ui.inner_instructions, Some(vec![parsed_inner()]));
    assert_eq!(UiInnerInstructions::parse(inner(), &message()), parsed_inner());
    assert_eq!(ui.pre_balances.len(), message().account_keys.len());
    assert_eq!(ui.post_balances.len(), message().account_keys.len());
}

#[test]
fn meta_encoding_follows_format() {
    let m = message();
    let parsed = meta(Ok(())).encode(UiTransactionEncoding::JsonParsed, &m);
    assert_eq!(parsed, UiTransactionStatusMeta::parse(meta(Ok(())), &m));
    for encoding in [
        UiTransactionEncoding::Binary,
        UiTransactionEncoding::Base58,
        UiTransactionEncoding::Base64,
        UiTransactionEncoding::Json,
    ] {
        assert_eq!(
            meta(Ok(())).encode(encoding, &m),
            UiTransactionStatusMeta::from(meta(Ok(())))
        );
    }
}

fn entry(with_meta: bool) -> TransactionWithStatusMeta {
    TransactionWithStatusMeta {
        transaction: Transaction { signatures: vec![], message: message() },
        meta: if with_meta { Some(meta(Ok(()))) } else { None },
    }
}

#[test]
fn transaction_with_meta_is_encoded() {
    let encoded = entry(true).encode(UiTransactionEncoding::Base64);
    assert_eq!(
        encoded.transaction,
        EncodedTransaction::encode(entry(true).transaction, UiTransactionEncoding::Base64)
    );
    assert_eq!(encoded.meta, Some(UiTransactionStatusMeta::from(meta(Ok(())))));
    assert_eq!(encoded.transaction.decode(), Some(entry(true).transaction));
    let parsed = entry(true).encode(UiTransactionEncoding::JsonParsed);
    assert_eq!(parsed.meta, Some(UiTransactionStatusMeta::parse(meta(Ok(())), &message())));
    assert_eq!(entry(false).encode(UiTransactionEncoding::Json).meta, None);
}

#[test]
fn block_is_encoded_in_order() {
    let rewards = vec![Reward { pubkey: text(1), lamports: -3, post_balance: 9 }];
    let block = ConfirmedBlock {
        previous_blockhash: "before".to_string(),
        blockhash: "this".to_string(),
        parent_slot: 41,
        transactions: vec![entry(true), entry(false)],
        rewards: rewards.clone(),
        block_time: Some(1_600_000_000),
    };
    let encoded = block.encode(UiTransactionEncoding::Json);
    assert_eq!(encoded.previous_blockhash, "before");
    assert_eq!(encoded.blockhash, "this");
    assert_eq!(encoded.parent_slot, 41);
    assert_eq!(encoded.rewards, rewards);
    assert_eq!(encoded.block_time, Some(1_600_000_000));
    assert_eq!(
        encoded.transactions,
        vec![
            entry(true).encode(UiTransactionEncoding::Json),
            entry(false).encode(UiTransactionEncoding::Json),
        ]
    );
}

#[test]
fn confirmed_transaction_keeps_slot() {
    let confirmed = ConfirmedTransaction { slot: 77, transaction: entry(true) };
    let encoded = confirmed.encode(UiTransactionEncoding::Base58);
    assert_eq!(encoded.slot, 77);
    assert_eq!(encoded.transaction, entry(true).encode(UiTransactionEncoding::Base58));
}

#[test]
fn dangling_inner_position_is_found() {
    let mut record = meta(Ok(()));
    assert!(record.indices_below(3));
    assert!(!record.indices_below(2));
    record.inner_instructions = None;
    assert!(record.indices_below(0));
    let mut e = entry(true);
    assert!(e.can_encode(UiTransactionEncoding::JsonParsed));
    e.meta.as_mut().unwrap().inner_instructions.as_mut().unwrap()[0].instructions[0].accounts =
        vec![3];
    assert!(!e.can_encode(UiTransactionEncoding::JsonParsed));
    assert!(e.can_encode(UiTransactionEncoding::Json));
    assert!(e.can_encode(UiTransactionEncoding::Base64));
    let block = ConfirmedBlock {
        previous_blockhash: String::new(),
        blockhash: String::new(),
        parent_slot: 0,
        transactions: vec![entry(true), e],
        rewards: vec![],
        block_time: None,
    };
    assert!(!block.can_encode(UiTransactionEncoding::JsonParsed));
    assert!(block.can_encode(UiTransactionEncoding::Base58));
}
