//! The transaction builder: validates every recipient of a payment
//! split, assembles the instruction sequence — the fixed priority-fee
//! instruction first, then one native transfer per recipient in split
//! order — and serializes the unsigned transaction to a transport-safe
//! text encoding through the blockchain SDK.

use vstd::prelude::*;

use crate::errors::ErrorResponse;
use crate::split::PaymentSplit;

use base64::Engine;
use solana_sdk::compute_budget::ComputeBudgetInstruction;
use solana_sdk::message::Message;
use solana_sdk::pubkey::Pubkey;
use solana_sdk::system_instruction;
use solana_sdk::transaction::Transaction;
use std::str::FromStr;

verus! {

/// Micro-lamports per compute unit charged as the fixed priority fee of
/// every built transaction.
pub const PRIORITY_FEE_MICROLAMPORTS: u64 = 1_000_000;

/// Most transfer recipients a single transaction may carry; keeps the
/// account table of the compiled message well below its hard limit.
pub const MAX_TRANSFER_RECIPIENTS: usize = 64;

/// Whether the blockchain SDK accepts `s` as a public key: exactly the
/// base58 strings that decode to 32 bytes.
pub uninterp spec fn pubkey_ok(s: Seq<char>) -> bool;

/// Whether the blockchain SDK accepts `s` as a blockhash: exactly the
/// base58 strings that decode to 32 bytes, like a public key.
pub uninterp spec fn blockhash_ok(s: Seq<char>) -> bool;

/// The serialized, text-encoded unsigned transaction assembled from a
/// fee payer, a priority fee, an ordered transfer list and a consensus
/// checkpoint; a pure function of these four arguments.
pub uninterp spec fn tx_b64_of(
    payer: Seq<char>,
    priority: u64,
    transfers: Seq<(Seq<char>, u64)>,
    blockhash: Seq<char>,
) -> Seq<char>;

/// The transfer entries of a split as view-level pairs.
pub open spec fn entries_view(s: Seq<(String, u64)>) -> Seq<(Seq<char>, u64)> {
    s.map_values(|e: (String, u64)| (e.0@, e.1))
}

/// Relies on `solana_sdk::pubkey::Pubkey::from_str`: parsing succeeds
/// or fails deterministically in the string alone.
#[verifier::external_body]
fn parse_pubkey_ok(s: &str) -> (r: bool)
    ensures
        r == pubkey_ok(s@),
{
    solana_sdk::pubkey::Pubkey::from_str(s).is_ok()
}

/// Relies on the blockchain SDK and the serializers, all deterministic
/// functions of their arguments: `Pubkey::from_str` and
/// `Hash::from_str` (base58 parsing),
/// `ComputeBudgetInstruction::set_compute_unit_price` and
/// `system_instruction::transfer` (instruction construction),
/// `Message::new_with_blockhash` and `Transaction::new_unsigned`
/// (assembly with the payer as fee payer and no signatures),
/// `bincode::serialize` (infallible for this message type) and
/// base64's standard engine. The bound on the transfer count keeps the
/// compiled account table below the SDK's limit, so assembly cannot
/// panic.
#[verifier::external_body]
fn encode_unsigned_transaction(
    payer: &str,
    priority: u64,
    transfers: &Vec<(String, u64)>,
    blockhash: &str,
) -> (r: Result<String, ErrorResponse>)
    requires
        pubkey_ok(payer@),
        forall|i: int| 0 <= i < transfers@.len() ==> pubkey_ok(transfers@[i].0@),
        transfers@.len() <= MAX_TRANSFER_RECIPIENTS,
    ensures
        r is Ok <==> blockhash_ok(blockhash@),
        r matches Ok(s) ==> s@ == tx_b64_of(payer@, priority, entries_view(transfers@), blockhash@),
{
    let payer_pk = Pubkey::from_str(payer).unwrap();
    let hash = match solana_sdk::hash::Hash::from_str(blockhash) {
        Ok(h) => h,
        Err(e) => return Err(ErrorResponse { message: e.to_string() }),
    };
    let mut ins = vec![ComputeBudgetInstruction::set_compute_unit_price(priority)];
    for (a, lamports) in transfers.iter() {
        ins.push(system_instruction::transfer(&payer_pk, &Pubkey::from_str(a).unwrap(), *lamports));
    }
    let msg = Message::new_with_blockhash(&ins, Some(&payer_pk), &hash);
    let bytes = bincode::serialize(&Transaction::new_unsigned(msg)).unwrap();
    Ok(base64::engine::general_purpose::STANDARD.encode(bytes))
}

/// Why building a transaction failed.
#[derive(Debug)]
pub enum TransactionBuildError {
    /// The buyer's address is not a valid public key.
    InvalidBuyer {},
    /// Some recipients of the split are not valid public keys; all of
    /// them are listed, in split order, not only the first.
    InvalidRecipients { addresses: Vec<String> },
    /// The consensus checkpoint is not a valid blockhash.
    InvalidBlockhash {},
}

/// The recipients of a split whose address the SDK rejects, in order.
pub open spec fn invalid_recipients(s: Seq<(String, u64)>) -> Seq<String>
    decreases s.len(),
{
    if s.len() == 0 {
        Seq::empty()
    } else {
        invalid_recipients(s.drop_last()) + (if !pubkey_ok(s.last().0@) {
            seq![s.last().0]
        } else {
            Seq::empty()
        })
    }
}

/// Builds and text-encodes the unsigned payment transaction for a
/// split: buyer as fee payer, the fixed priority-fee instruction first,
/// then one transfer per split entry in split order, anchored at the
/// given consensus checkpoint. Never signs anything. Address validation
/// failures are aggregated: every invalid recipient is reported, not
/// only the first.
pub fn create_merch_blink_transaction(
    buyer_address: &str,
    payment_splits: &PaymentSplit,
    blockhash: &str,
) -> (r: Result<String, TransactionBuildError>)
    requires
        payment_splits.entries@.len() <= MAX_TRANSFER_RECIPIENTS,
    ensures
        !pubkey_ok(buyer_address@) ==> r matches Err(TransactionBuildError::InvalidBuyer {  }),
        pubkey_ok(buyer_address@) && invalid_recipients(payment_splits.entries@).len() > 0
            ==> (r matches Err(TransactionBuildError::InvalidRecipients { addresses })
            && addresses@ == invalid_recipients(payment_splits.entries@)),
        pubkey_ok(buyer_address@) && invalid_recipients(payment_splits.entries@).len() == 0
            && blockhash_ok(blockhash@) ==> (r matches Ok(s) && s@ == tx_b64_of(
            buyer_address@,
            PRIORITY_FEE_MICROLAMPORTS,
            entries_view(payment_splits.entries@),
            blockhash@,
        )),
        pubkey_ok(buyer_address@) && invalid_recipients(payment_splits.entries@).len() == 0
            && !blockhash_ok(blockhash@) ==> r matches Err(
            TransactionBuildError::InvalidBlockhash {  },
        ),
{
    if !parse_pubkey_ok(buyer_address) {
        return Err(TransactionBuildError::InvalidBuyer {  });
    }
    let ghost entries = payment_splits.entries@;
    let mut invalid: Vec<String> = Vec::new();
    let mut i: usize = 0;
    while i < payment_splits.entries.len()
        invariant
            0 <= i <= entries.len(),
            payment_splits.entries@ == entries,
            invalid@ == invalid_recipients(entries.take(i as int)),
        decreases entries.len() - i,
    {
        let (address, _) = &payment_splits.entries[i];
        proof {
            assert(entries.take(i + 1).drop_last() =~= entries.take(i as int));
            assert(entries.take(i + 1).last() == entries[i as int]);
        }
        if !parse_pubkey_ok(address.as_str()) {
            invalid.push(address.clone());
            proof {
                assert(invalid@ =~= invalid_recipients(entries.take(i + 1)));
            }
        }
        i += 1;
    }
    proof {
        assert(entries.take(i as int) =~= entries);
    }
    if invalid.len() > 0 {
        return Err(TransactionBuildError::InvalidRecipients { addresses: invalid });
    }
    proof {
        lemma_no_invalid_recipients(entries);
    }
    match encode_unsigned_transaction(
        buyer_address,
        PRIORITY_FEE_MICROLAMPORTS,
        &payment_splits.entries,
        blockhash,
    ) {
        Ok(s) => Ok(s),
        Err(_) => Err(TransactionBuildError::InvalidBlockhash {  }),
    }
}

/// A split with no invalid recipients has only valid ones.
proof fn lemma_no_invalid_recipients(s: Seq<(String, u64)>)
    requires
        invalid_recipients(s).len() == 0,
    ensures
        forall|i: int| 0 <= i < s.len() ==> pubkey_ok(#[trigger] s[i].0@),
    decreases s.len(),
{
    if s.len() > 0 {
        lemma_no_invalid_recipients(s.drop_last());
        assert forall|i: int| 0 <= i < s.len() implies pubkey_ok(#[trigger] s[i].0@) by {
            if i < s.len() - 1 {
                assert(s.drop_last()[i] == s[i]);
            }
        }
    }
}

} // verus!
