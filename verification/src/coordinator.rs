//! The purchase-initiation side of the order coordinator: validates the
//! product, splits the price between seller and platform, converts the
//! split to native-token units, and prepares the order record and the
//! balance requirement — everything the surrounding service needs
//! before it persists the order and builds the transaction.

use vstd::prelude::*;

use crate::convert::lamports_for_cents;
use crate::convert::lamports_from_usd_cents;
use crate::convert::MAX_CONVERTIBLE_CENTS;
use crate::convert::SHIPPING_SURCHARGE_CENTS;
use crate::convert::SLIPPAGE_LAMPORTS_PER_CENT;
use crate::order::NewMerchOrder;
use crate::order::OrderStatus;
use crate::order::TRANSACTION_FEE_BUFFER_LAMPORTS;
use crate::product::compute_order_amounts;
use crate::product::purchasable;
use crate::product::validate_purchase;
use crate::product::validate_purchase_spec;
use crate::product::MerchProductWithCurrentSupply;
use crate::product::OrderAmounts;
use crate::product::PurchaseRejection;
use crate::split::calculate_payment_shares;
use crate::split::key_amount;
use crate::split::key_total;
use crate::split::sum_amounts;
use crate::split::sum_clamped;
use crate::split::sum_entries;
use crate::split::lemma_sum_entries_take_le;
use crate::split::PaymentSplit;

verus! {

/// A fiat split converted entry by entry to native-token base units:
/// same recipients in the same order, each amount converted at the same
/// rate with the slippage buffer.
pub open spec fn lamports_split_of(cents: Seq<(String, u64)>, out: Seq<(String, u64)>, rate_cents: u64) -> bool {
    &&& out.len() == cents.len()
    &&& forall|i: int|
        0 <= i < out.len() ==> (#[trigger] out[i]).0@ == cents[i].0@ && out[i].1
            == lamports_for_cents(cents[i].1 as int, rate_cents as int)
}

/// Converts every amount of a fiat split to lamports, keeping
/// recipients and order; returns the converted split and its total. In
/// degraded mode (zero rate) the total is zero.
pub fn convert_split_to_lamports(split: &PaymentSplit, rate_cents: u64) -> (r: (PaymentSplit, u64))
    requires
        split.well_formed(),
        forall|i: int| 0 <= i < split.entries@.len() ==> (#[trigger] split.entries@[i]).1
            <= MAX_CONVERTIBLE_CENTS,
        sum_entries(split.entries@) <= u32::MAX,
    ensures
        lamports_split_of(split.entries@, r.0.entries@, rate_cents),
        r.0.well_formed(),
        r.1 == sum_entries(r.0.entries@),
        r.1 as int <= SLIPPAGE_LAMPORTS_PER_CENT as int * sum_entries(split.entries@),
        rate_cents == 0 ==> r.1 == 0,
{
    let ghost cents = split.entries@;
    let mut out: Vec<(String, u64)> = Vec::new();
    let mut total: u64 = 0;
    let mut i: usize = 0;
    while i < split.entries.len()
        invariant
            0 <= i <= cents.len(),
            split.entries@ == cents,
            split.well_formed(),
            forall|j: int| 0 <= j < cents.len() ==> (#[trigger] cents[j]).1 <= MAX_CONVERTIBLE_CENTS,
            sum_entries(cents) <= u32::MAX,
            out@.len() == i,
            forall|j: int|
                0 <= j < i ==> (#[trigger] out@[j]).0@ == cents[j].0@ && out@[j].1
                    == lamports_for_cents(cents[j].1 as int, rate_cents as int),
            total == sum_entries(out@),
            total as int <= 1_020_000_000 * sum_entries(cents.take(i as int)),
            rate_cents == 0 ==> total == 0,
        decreases cents.len() - i,
    {
        let (address, amount_cents) = (&split.entries[i].0, split.entries[i].1);
        let lam = lamports_from_usd_cents(amount_cents, rate_cents);
        proof {
            let c = amount_cents as int;
            let rc = rate_cents as int;
            if rc >= 1 {
                assert((c * 1_020_000_000) / rc <= c * 1_020_000_000) by (nonlinear_arith)
                    requires
                        c >= 0,
                        rc >= 1,
                ;
            }
            assert(lam as int <= 1_020_000_000 * c);
            assert(cents.take(i + 1).drop_last() =~= cents.take(i as int));
            assert(cents.take(i + 1).last() == cents[i as int]);
            lemma_sum_entries_take_le(cents, i + 1);
            lemma_sum_entries_take_le(cents, i as int);
            assert(1_020_000_000 * sum_entries(cents.take(i + 1)) == 1_020_000_000 * sum_entries(
                cents.take(i as int),
            ) + 1_020_000_000 * c);
            assert(1_020_000_000 * sum_entries(cents.take(i + 1)) <= 1_020_000_000 * 0xFFFF_FFFF);
        }
        let new_total: u64 = total + lam;
        let ghost old_out = out@;
        out.push((address.clone(), lam));
        proof {
            assert(out@.drop_last() =~= old_out);
        }
        total = new_total;
        i += 1;
    }
    proof {
        assert(cents.take(i as int) =~= cents);
        assert forall|p: int, q: int| 0 <= p < q < out@.len() implies out@[p].0@ != out@[q].0@ by {
            assert(out@[p].0@ == cents[p].0@);
            assert(out@[q].0@ == cents[q].0@);
        }
    }
    (PaymentSplit { entries: out }, total)
}

/// Unfolds the split sums of a two-entry beneficiary list.
proof fn lemma_pair_sums(b: Seq<(String, i64)>, k: Seq<char>)
    requires
        b.len() == 2,
    ensures
        sum_amounts(b) == b[0].1 + b[1].1,
        sum_clamped(b) == (if b[0].1 >= 0 {
            b[0].1 as int
        } else {
            0
        }) + (if b[1].1 >= 0 {
            b[1].1 as int
        } else {
            0
        }),
        key_total(b, k) == (if b[0].0@ == k {
            b[0].1 as int
        } else {
            0
        }) + (if b[1].0@ == k {
            b[1].1 as int
        } else {
            0
        }),
{
    reveal_with_fuel(sum_amounts, 3);
    reveal_with_fuel(sum_clamped, 3);
    reveal_with_fuel(key_total, 3);
    assert(b.drop_last().drop_last().len() == 0);
    assert(b.drop_last().last() == b[0]);
    assert(b.last() == b[1]);
}

/// Everything computed when a purchase is initiated, before any side
/// effect: the amounts, the fiat split, its lamport conversion with the
/// buyer's total, the balance the buyer must hold, and the order record
/// to persist.
pub struct PreparedPurchase {
    pub amounts: OrderAmounts,
    pub split_cents: PaymentSplit,
    pub split_lamports: PaymentSplit,
    pub total_lamports: u64,
    pub required_balance_lamports: u64,
    pub new_order: NewMerchOrder,
}

/// What a correctly prepared purchase of `p` looks like.
pub open spec fn prepared_ok(
    p: MerchProductWithCurrentSupply,
    rate_cents: u64,
    user_id: i64,
    seller_wallet: Seq<char>,
    platform_wallet: Seq<char>,
    shipping_address_raw: Seq<char>,
    r: PreparedPurchase,
) -> bool {
    &&& r.amounts.seller_cents == p.selling_price - p.foster_amount
    &&& r.amounts.foster_cents == p.foster_amount + SHIPPING_SURCHARGE_CENTS
    &&& r.amounts.total_cents == p.selling_price + SHIPPING_SURCHARGE_CENTS
    &&& r.split_cents.well_formed()
    &&& r.split_cents.total() == r.amounts.total_cents
    &&& (seller_wallet != platform_wallet ==> key_amount(r.split_cents.entries@, seller_wallet)
        == r.amounts.seller_cents && key_amount(r.split_cents.entries@, platform_wallet)
        == r.amounts.foster_cents)
    &&& (seller_wallet == platform_wallet ==> key_amount(r.split_cents.entries@, seller_wallet)
        == r.amounts.total_cents)
    &&& forall|k: Seq<char>|
        k != seller_wallet && k != platform_wallet ==> #[trigger] key_amount(
            r.split_cents.entries@,
            k,
        ) == 0
    &&& forall|i: int|
        0 <= i < r.split_cents.entries@.len() ==> ((#[trigger] r.split_cents.entries@[i]).0@
            == seller_wallet || r.split_cents.entries@[i].0@ == platform_wallet)
    &&& lamports_split_of(r.split_cents.entries@, r.split_lamports.entries@, rate_cents)
    &&& r.split_lamports.well_formed()
    &&& r.total_lamports == sum_entries(r.split_lamports.entries@)
    &&& (rate_cents == 0 ==> r.total_lamports == 0)
    &&& r.required_balance_lamports == r.total_lamports + TRANSACTION_FEE_BUFFER_LAMPORTS
    &&& r.new_order.user_id == user_id
    &&& r.new_order.status is Created
    &&& r.new_order.shipping_address_raw@ == shipping_address_raw
    &&& r.new_order.external_order_id is None
    &&& r.new_order.transaction_id is None
    &&& r.new_order.total_amount_usd == r.amounts.total_cents
    &&& r.new_order.total_amount_token == r.total_lamports
    &&& r.new_order.payment_splits.entries@ == r.split_cents.entries@
}

/// Prepares a merchandise purchase: rejects it exactly when the product
/// is sold out or outside its sale window; otherwise splits the price
/// between the seller's wallet and the platform's wallet (the platform
/// additionally collecting the shipping surcharge), converts the split
/// to lamports at the given rate, and lays out the order record bound
/// to that split, in `Created` state with no payment reference.
pub fn prepare_merch_purchase(
    p: &MerchProductWithCurrentSupply,
    now: i64,
    rate_cents: u64,
    user_id: i64,
    seller_wallet: &str,
    platform_wallet: &str,
    shipping_address_raw: &str,
) -> (r: Result<PreparedPurchase, PurchaseRejection>)
    requires
        p.well_formed(),
        p.selling_price + SHIPPING_SURCHARGE_CENTS <= u32::MAX,
    ensures
        r is Ok <==> purchasable(*p, now),
        r matches Err(e) ==> Err::<(), PurchaseRejection>(e) == validate_purchase_spec(*p, now),
        r matches Ok(prep) ==> prepared_ok(
            *p,
            rate_cents,
            user_id,
            seller_wallet@,
            platform_wallet@,
            shipping_address_raw@,
            prep,
        ),
{
    match validate_purchase(p, now) {
        Err(e) => {
            return Err(e);
        },
        Ok(()) => {},
    }
    let amounts = compute_order_amounts(p);
    let mut beneficiaries: Vec<(String, i64)> = Vec::new();
    beneficiaries.push((seller_wallet.to_owned(), amounts.seller_cents as i64));
    beneficiaries.push((platform_wallet.to_owned(), amounts.foster_cents as i64));
    proof {
        let b = beneficiaries@;
        assert(b[0].1 == amounts.seller_cents as i64);
        assert(b[1].1 == amounts.foster_cents as i64);
        lemma_pair_sums(b, seller_wallet@);
        assert(sum_clamped(b) == amounts.seller_cents + amounts.foster_cents);
        assert(sum_amounts(b) == amounts.seller_cents + amounts.foster_cents);
        assert forall|k: Seq<char>| #[trigger] key_total(b, k) == (if k == seller_wallet@
            && k == platform_wallet@ {
            amounts.total_cents as int
        } else if k == seller_wallet@ {
            amounts.seller_cents as int
        } else if k == platform_wallet@ {
            amounts.foster_cents as int
        } else {
            0
        }) by {
            lemma_pair_sums(b, k);
        }
    }
    let split_cents = match calculate_payment_shares(&beneficiaries) {
        Ok(s) => s,
        Err(e) => {
            // both amounts are non-negative, so the calculator cannot reject them
            proof {
                assert(forall|i: int|
                    0 <= i < beneficiaries@.len() ==> (#[trigger] beneficiaries@[i]).1 >= 0);
                assert(false);
            }
            return Err(PurchaseRejection::SoldOut);
        },
    };
    proof {
        assert forall|i: int| 0 <= i < split_cents.entries@.len() implies (
        #[trigger] split_cents.entries@[i]).1 <= MAX_CONVERTIBLE_CENTS by {
            crate::split::lemma_entry_le_sum(split_cents.entries@, i);
        }
    }
    let (split_lamports, total_lamports) = convert_split_to_lamports(&split_cents, rate_cents);
    proof {
        assert(total_lamports as int <= SLIPPAGE_LAMPORTS_PER_CENT as int * 0xFFFF_FFFF);
    }
    let required_balance_lamports = crate::order::required_balance_lamports(total_lamports);
    let new_order = NewMerchOrder {
        user_id,
        status: OrderStatus::Created,
        shipping_address_raw: shipping_address_raw.to_owned(),
        external_order_id: None,
        total_amount_usd: amounts.total_cents,
        total_amount_token: total_lamports,
        payment_splits: split_cents.clone_split(),
        transaction_id: None,
    };
    Ok(PreparedPurchase {
        amounts,
        split_cents,
        split_lamports,
        total_lamports,
        required_balance_lamports,
        new_order,
    })
}

} // verus!
