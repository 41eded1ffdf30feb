use std::str::FromStr;

use base64::Engine;
use solana_sdk::pubkey::Pubkey;
use solana_sdk::system_instruction::SystemInstruction;
use solana_sdk::transaction::Transaction;

use blink_engine::split::PaymentSplit;
use blink_engine::txbuild::create_merch_blink_transaction;
use blink_engine::txbuild::TransactionBuildError;

const BUYER: &str = "Vote111111111111111111111111111111111111111";
const RECIPIENT_1: &str = "So11111111111111111111111111111111111111112";
const RECIPIENT_2: &str = "SysvarRent111111111111111111111111111111111";
const BLOCKHASH: &str = "EETubP5AKHgjPAhzPAFcb8BAY1hMH639CWCFTqi3hq1k";

// The built transaction, serialized and re-parsed with the real codecs,
// reproduces the fee payer, the checkpoint, and the ordered instruction
// list: the priority-fee instruction first, then one transfer per split
// entry in split order — and carries no signature.
#[test]
fn transaction_round_trip_preserves_instructions() {
    let split = PaymentSplit {
        entries: vec![(RECIPIENT_1.to_string(), 111), (RECIPIENT_2.to_string(), 222)],
    };
    let encoded = create_merch_blink_transaction(BUYER, &split, BLOCKHASH).unwrap();
    let bytes = base64::engine::general_purpose::STANDARD.decode(&encoded).unwrap();
    let tx: Transaction = bincode::deserialize(&bytes).unwrap();

    for s in &tx.signatures {
        assert_eq!(*s, solana_sdk::signature::Signature::default());
    }
    let msg = &tx.message;
    assert_eq!(msg.account_keys[0], Pubkey::from_str(BUYER).unwrap());
    assert_eq!(msg.recent_blockhash, solana_sdk::hash::Hash::from_str(BLOCKHASH).unwrap());
    assert_eq!(msg.instructions.len(), 1 + split.entries.len());

    let fee = &msg.instructions[0];
    assert_eq!(
        msg.account_keys[fee.program_id_index as usize],
        solana_sdk::compute_budget::id()
    );

    for (k, (addr, lamports)) in split.entries.iter().enumerate() {
        let ins = &msg.instructions[k + 1];
        assert_eq!(
            msg.account_keys[ins.program_id_index as usize],
            solana_sdk::system_program::id()
        );
        assert_eq!(msg.account_keys[ins.accounts[0] as usize].to_string(), BUYER);
        assert_eq!(msg.account_keys[ins.accounts[1] as usize].to_string(), *addr);
        let decoded: SystemInstruction = bincode::deserialize(&ins.data).unwrap();
        match decoded {
            SystemInstruction::Transfer { lamports: l } => assert_eq!(l, *lamports),
            _ => panic!("instruction {} is not a transfer", k + 1),
        }
    }
}

#[test]
fn encoding_is_deterministic() {
    let split = PaymentSplit { entries: vec![(RECIPIENT_1.to_string(), 5)] };
    let a = create_merch_blink_transaction(BUYER, &split, BLOCKHASH).unwrap();
    let b = create_merch_blink_transaction(BUYER, &split, BLOCKHASH).unwrap();
    assert_eq!(a, b);
    assert!(!a.is_empty());
}

#[test]
fn invalid_buyer_is_rejected() {
    let split = PaymentSplit { entries: vec![(RECIPIENT_1.to_string(), 5)] };
    let r = create_merch_blink_transaction("not-a-key", &split, BLOCKHASH);
    assert!(matches!(r, Err(TransactionBuildError::InvalidBuyer {})));
}

// Address validation aggregates: every invalid recipient is listed, in
// split order, not only the first.
#[test]
fn invalid_recipients_are_all_reported() {
    let split = PaymentSplit {
        entries: vec![
            ("bad!".to_string(), 1),
            (RECIPIENT_1.to_string(), 2),
            ("0O0O0O".to_string(), 3),
        ],
    };
    match create_merch_blink_transaction(BUYER, &split, BLOCKHASH) {
        Err(TransactionBuildError::InvalidRecipients { addresses }) => {
            assert_eq!(addresses, vec!["bad!".to_string(), "0O0O0O".to_string()]);
        }
        other => panic!("expected aggregated recipient errors, got {:?}", other.is_ok()),
    }
}

#[test]
fn invalid_blockhash_is_rejected() {
    let split = PaymentSplit { entries: vec![(RECIPIENT_1.to_string(), 5)] };
    let r = create_merch_blink_transaction(BUYER, &split, "nope");
    assert!(matches!(r, Err(TransactionBuildError::InvalidBlockhash {})));
}
