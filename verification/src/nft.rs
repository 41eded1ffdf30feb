//! The NFT entity model: its single active sale mechanism as a closed
//! sum type, and the pricing rules for bids and print purchases.

use vstd::prelude::*;

verus! {

/// Fixed increment over the highest bid for the one-click minimum bid,
/// in lamports (0.01 token).
pub const BID_INCREMENT_LAMPORTS: u64 = 10_000_000;

/// Floor for a minimum bid when an auction has no bids and no reserve
/// price, and for a free-form offer, in lamports (0.1 token).
pub const AUCTION_FLOOR_LAMPORTS: u64 = 100_000_000;

/// Least amount of a free-form offer, in lamports (0.01 token).
pub const MIN_OFFER_LAMPORTS: u64 = 10_000_000;

/// The sale mechanism active on an NFT. Exactly one is active at a
/// time; the variants are mutually exclusive by construction.
pub enum NftSaleState {
    /// A fixed-price listing.
    Listed { list_price_lamports: u64 },
    /// A running auction, with the highest bid so far (if any) and the
    /// reserve price; a zero reserve means none was set.
    Auction { highest_bid_lamports: Option<u64>, reserve_price_lamports: u64 },
    /// A master edition selling numbered prints at a fixed price,
    /// optionally tied to a merchandise product whose platform share is
    /// collected on top (in cents).
    MasterEdition { price_lamports: u64, merch_foster_amount_cents: Option<u32> },
    /// No active sale mechanism; only offers can be placed.
    OfferOnly,
}

/// A stored NFT record reduced to the fields the action engine reads.
pub struct SingleNftResponse {
    pub token_id: String,
    pub nft_name: String,
    /// Wallet of the minting artist.
    pub minter_id: String,
    /// Media kind tag, e.g. "image", "video/mp4", "audio/mpeg", "vr".
    pub asset_type: String,
    pub asset_url: String,
    pub cover_image_url: Option<String>,
    pub collection_id: Option<i64>,
    pub categories: Vec<String>,
    /// Royalty share in basis points.
    pub royalties: i64,
    pub sale_state: NftSaleState,
}

/// Supply facts of an indexed NFT: the master edition it was printed
/// from, the print cap, and this print's number.
pub struct DasPrintSupply {
    pub master_edition_mint: Option<String>,
    pub print_max_supply: Option<u64>,
    pub edition_number: Option<u64>,
}

/// The mint of the master edition a print was made from; a token
/// without one is not a print, which is a domain error when indexing.
pub fn parent_edition_mint<'a>(supply: &'a DasPrintSupply) -> (r: Result<
    &'a String,
    crate::errors::ErrorResponse,
>)
    ensures
        supply.master_edition_mint is Some <==> r is Ok,
        r matches Ok(m) ==> m@ == supply.master_edition_mint->0@,
{
    match &supply.master_edition_mint {
        Some(m) => Ok(m),
        None => Err(
            crate::errors::ErrorResponse { message: "nft is not a print".to_owned() },
        ),
    }
}

/// The fields of a new print record, handed to the storage collaborator
/// after a print was minted.
pub struct NewSingleNft {
    pub owner_id: String,
    pub token_id: String,
    pub minter_id: String,
    pub collection_id: Option<i64>,
    pub nft_name: String,
    pub minted_on_foster: bool,
    pub views: i32,
    pub likes: i32,
    pub shares: i32,
    pub saves: i32,
    pub categories: Vec<String>,
    pub asset_url: String,
    pub asset_type: String,
    pub cover_image_url: Option<String>,
    pub royalties: i64,
    pub parent_nft: Option<String>,
    pub max_supply: Option<i64>,
    pub edition: i64,
}

/// Lays out the record of a freshly minted print: owned and minted by
/// the buyer, carrying the parent's collection, name, media and
/// royalties, linked to the parent token, with the supply facts the
/// indexer reported and zeroed engagement counters.
pub fn build_print_nft(
    parent: &SingleNftResponse,
    supply: &DasPrintSupply,
    account: &str,
    token_id: &str,
) -> (r: NewSingleNft)
    requires
        supply.print_max_supply matches Some(m) ==> m <= i64::MAX,
        supply.edition_number matches Some(e) ==> e <= i64::MAX,
    ensures
        r.owner_id@ == account@,
        r.token_id@ == token_id@,
        r.minter_id@ == account@,
        r.collection_id == parent.collection_id,
        r.nft_name@ == parent.nft_name@,
        r.minted_on_foster == true,
        r.views == 0 && r.likes == 0 && r.shares == 0 && r.saves == 0,
        r.categories@ == parent.categories@,
        r.asset_url@ == parent.asset_url@,
        r.asset_type@ == parent.asset_type@,
        r.cover_image_url == parent.cover_image_url,
        r.royalties == parent.royalties,
        r.parent_nft matches Some(t) && t@ == parent.token_id@,
        r.max_supply == (match supply.print_max_supply {
            Some(m) => Some(m as i64),
            None => None::<i64>,
        }),
        r.edition == (match supply.edition_number {
            Some(e) => e as i64,
            None => 0,
        }),
{
    let categories = clone_string_vec(&parent.categories);
    let cover_image_url = match &parent.cover_image_url {
        Some(u) => Some(u.clone()),
        None => None,
    };
    let max_supply = match supply.print_max_supply {
        Some(m) => Some(m as i64),
        None => None,
    };
    let edition: i64 = match supply.edition_number {
        Some(e) => e as i64,
        None => 0,
    };
    NewSingleNft {
        owner_id: account.to_owned(),
        token_id: token_id.to_owned(),
        minter_id: account.to_owned(),
        collection_id: parent.collection_id,
        nft_name: parent.nft_name.clone(),
        minted_on_foster: true,
        views: 0,
        likes: 0,
        shares: 0,
        saves: 0,
        categories,
        asset_url: parent.asset_url.clone(),
        asset_type: parent.asset_type.clone(),
        cover_image_url,
        royalties: parent.royalties,
        parent_nft: Some(parent.token_id.clone()),
        max_supply,
        edition,
    }
}

/// A deep copy of a list of strings.
fn clone_string_vec(v: &Vec<String>) -> (r: Vec<String>)
    ensures
        r@ == v@,
{
    let mut r: Vec<String> = Vec::new();
    let mut i: usize = 0;
    while i < v.len()
        invariant
            0 <= i <= v@.len(),
            r@ == v@.take(i as int),
        decreases v@.len() - i,
    {
        r.push(v[i].clone());
        proof {
            assert(r@ =~= v@.take(i + 1));
        }
        i += 1;
    }
    proof {
        assert(v@.take(i as int) =~= v@);
    }
    r
}

/// The resolved minimum bid of an auction: the fixed increment over the
/// highest bid when one exists; otherwise the reserve price, or the
/// fixed floor when no reserve was set.
pub open spec fn minimum_bid_spec(highest_bid: Option<u64>, reserve_price: u64) -> int {
    match highest_bid {
        Some(h) => h + BID_INCREMENT_LAMPORTS,
        None => if reserve_price == 0 {
            AUCTION_FLOOR_LAMPORTS as int
        } else {
            reserve_price as int
        },
    }
}

/// Computes the minimum accepted bid of an auction, in lamports.
pub fn resolved_minimum_bid(highest_bid: Option<u64>, reserve_price: u64) -> (r: u64)
    requires
        highest_bid matches Some(h) ==> h <= u64::MAX - BID_INCREMENT_LAMPORTS,
    ensures
        r == minimum_bid_spec(highest_bid, reserve_price),
        highest_bid is None && reserve_price == 0 ==> r == AUCTION_FLOOR_LAMPORTS,
{
    match highest_bid {
        Some(h) => h + BID_INCREMENT_LAMPORTS,
        None => {
            if reserve_price == 0 {
                AUCTION_FLOOR_LAMPORTS
            } else {
                reserve_price
            }
        },
    }
}

/// Total price of a new print of a master edition: the edition price
/// plus, when a merchandise product is tied to it, the product's
/// platform share converted to lamports with the slippage buffer.
pub open spec fn buy_print_total_spec(
    price_lamports: u64,
    merch_foster_amount_cents: Option<u32>,
    rate_cents: u64,
) -> int {
    price_lamports + (match merch_foster_amount_cents {
        Some(cents) => crate::convert::lamports_for_cents(cents as int, rate_cents as int),
        None => 0,
    })
}

/// Computes the lamport price of a new print of a master edition.
pub fn buy_print_total(
    price_lamports: u64,
    merch_foster_amount_cents: Option<u32>,
    rate_cents: u64,
) -> (r: u64)
    requires
        price_lamports <= 1_000_000_000_000_000_000,
    ensures
        r == buy_print_total_spec(price_lamports, merch_foster_amount_cents, rate_cents),
{
    match merch_foster_amount_cents {
        Some(cents) => {
            let extra = crate::convert::lamports_from_usd_cents(cents as u64, rate_cents);
            proof {
                let c = cents as int;
                let s = crate::convert::SLIPPAGE_LAMPORTS_PER_CENT as int;
                let rc = rate_cents as int;
                assert(0 <= c * s <= 0xFFFF_FFFFint * 1_020_000_000) by (nonlinear_arith)
                    requires
                        0 <= c <= 0xFFFF_FFFFint,
                        s == 1_020_000_000,
                ;
                if rc > 0 {
                    assert((c * s) / rc <= c * s) by (nonlinear_arith)
                        requires
                            c * s >= 0,
                            rc >= 1,
                    ;
                }
                assert(extra <= 0xFFFF_FFFFint * 1_020_000_000);
            }
            price_lamports + extra
        },
        None => price_lamports,
    }
}

} // verus!
