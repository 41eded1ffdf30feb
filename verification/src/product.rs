//! The merchandise product model and its purchase rules: supply
//! exhaustion, the sale window, the fulfillment-type tag, and the split
//! of the selling price between seller and platform.

use vstd::prelude::*;

use crate::errors::ErrorResponse;

verus! {

/// Who fulfills a merchandise order: the platform operator or the
/// seller. Decoded once at the data boundary; an unknown tag is a
/// data-integrity error, not a request failure.
#[derive(Clone, Copy, PartialEq, Eq, Structural, Debug)]
pub enum FulfillmentType {
    Foster,
    User,
}

/// Decodes the stored fulfillment-type tag. Exactly the tags "foster"
/// and "user" are valid; anything else is rejected.
pub fn parse_fulfillment_type(tag: &str) -> (r: Result<FulfillmentType, ErrorResponse>)
    ensures
        tag@ == "foster"@ ==> (r matches Ok(t) && t == FulfillmentType::Foster),
        tag@ == "user"@ ==> (r matches Ok(t) && t == FulfillmentType::User),
        tag@ != "foster"@ && tag@ != "user"@ ==> r is Err,
{
    proof {
        reveal_strlit("foster");
        reveal_strlit("user");
        assert("foster"@.len() == 6);
        assert("user"@.len() == 4);
        assert("foster"@ != "user"@);
    }
    if crate::strutil::str_eq(tag, "foster") {
        Ok(FulfillmentType::Foster)
    } else if crate::strutil::str_eq(tag, "user") {
        Ok(FulfillmentType::User)
    } else {
        let mut m: String = "could not parse as FulfillmentType: ".to_owned();
        m.append(tag);
        Err(ErrorResponse { message: m })
    }
}

/// A merchandise listing together with how many units were already
/// sold. Monetary fields are fiat minor units (cents); timestamps are
/// seconds. The structured options of the stored product are reduced to
/// the fields this engine reads.
pub struct MerchProductWithCurrentSupply {
    pub id: i64,
    pub name: String,
    pub description: String,
    /// Selling price in cents.
    pub selling_price: u32,
    /// The platform's share of the selling price, in cents.
    pub foster_amount: u32,
    /// Total number of units offered; `None` means unlimited.
    pub supply: Option<u32>,
    /// Units already sold.
    pub current_supply: u32,
    pub sale_start_at: Option<i64>,
    pub sale_end_at: Option<i64>,
    pub fulfillment_type: FulfillmentType,
    /// Identifier of the selling user.
    pub user_id: i64,
    /// Mockup image locations of operator-fulfilled add-ons.
    pub addon_mockup_urls: Vec<String>,
    /// Raw asset locations of operator-fulfilled add-ons.
    pub addon_raw_urls: Vec<String>,
    /// Image locations of a seller-fulfilled product.
    pub product_images: Vec<String>,
    /// Print technique of an operator-fulfilled product, when recorded.
    pub print_technique: Option<String>,
}

impl MerchProductWithCurrentSupply {
    /// The platform's share never exceeds the selling price.
    pub open spec fn well_formed(self) -> bool {
        self.foster_amount <= self.selling_price
    }
}

/// Why a purchase attempt is rejected.
#[derive(Clone, Copy, PartialEq, Eq, Structural, Debug)]
pub enum PurchaseRejection {
    SoldOut,
    NotYetOnSale,
    SaleEnded,
}

/// The product has a supply cap that the sold count has reached.
pub open spec fn sold_out(p: MerchProductWithCurrentSupply) -> bool {
    p.supply matches Some(cap) && p.current_supply >= cap
}

/// The sale window has not opened at time `now`.
pub open spec fn before_sale(p: MerchProductWithCurrentSupply, now: i64) -> bool {
    p.sale_start_at matches Some(start) && now < start
}

/// The sale window has closed at time `now`.
pub open spec fn after_sale(p: MerchProductWithCurrentSupply, now: i64) -> bool {
    p.sale_end_at matches Some(end) && now > end
}

/// A purchase of `p` at time `now` is allowed.
pub open spec fn purchasable(p: MerchProductWithCurrentSupply, now: i64) -> bool {
    !sold_out(p) && !before_sale(p, now) && !after_sale(p, now)
}

/// The exact outcome of purchase validation: exhausted supply is
/// reported first, then a not-yet-open window, then a closed one.
pub open spec fn validate_purchase_spec(p: MerchProductWithCurrentSupply, now: i64) -> Result<
    (),
    PurchaseRejection,
> {
    if sold_out(p) {
        Err(PurchaseRejection::SoldOut)
    } else if before_sale(p, now) {
        Err(PurchaseRejection::NotYetOnSale)
    } else if after_sale(p, now) {
        Err(PurchaseRejection::SaleEnded)
    } else {
        Ok(())
    }
}

/// Validates that `p` may be purchased at time `now`. A purchase outside
/// the sale window or past the supply cap is always rejected with the
/// corresponding domain error, never allowed through.
pub fn validate_purchase(p: &MerchProductWithCurrentSupply, now: i64) -> (r: Result<
    (),
    PurchaseRejection,
>)
    ensures
        r == validate_purchase_spec(*p, now),
        r is Ok <==> purchasable(*p, now),
        before_sale(*p, now) || after_sale(*p, now) ==> r is Err,
        sold_out(*p) ==> r == Result::<(), PurchaseRejection>::Err(PurchaseRejection::SoldOut),
{
    match p.supply {
        Some(cap) => {
            if p.current_supply >= cap {
                return Err(PurchaseRejection::SoldOut);
            }
        },
        None => {},
    }
    match p.sale_start_at {
        Some(start) => {
            if now < start {
                return Err(PurchaseRejection::NotYetOnSale);
            }
        },
        None => {},
    }
    match p.sale_end_at {
        Some(end) => {
            if now > end {
                return Err(PurchaseRejection::SaleEnded);
            }
        },
        None => {},
    }
    Ok(())
}

/// Renders a purchase rejection for the error payload of a response.
pub fn purchase_rejection_message(p: &MerchProductWithCurrentSupply, r: &PurchaseRejection) -> (m:
    String)
{
    let mut m: String = "product ".to_owned();
    m.append(p.name.as_str());
    match r {
        PurchaseRejection::SoldOut => m.append(" has sold out"),
        PurchaseRejection::NotYetOnSale => m.append(" is not on sale yet"),
        PurchaseRejection::SaleEnded => m.append(" sale has ended"),
    }
    m
}

/// The amounts of a merchandise purchase, in cents: what the seller
/// receives, what the platform receives (its share plus the shipping
/// surcharge), and the buyer's total.
pub struct OrderAmounts {
    pub seller_cents: u32,
    pub foster_cents: u32,
    pub total_cents: u32,
}

/// Splits the selling price of `p` into the seller's and the platform's
/// share; the platform additionally collects the fixed shipping
/// surcharge, and the buyer's total is the sum of both shares.
pub fn compute_order_amounts(p: &MerchProductWithCurrentSupply) -> (r: OrderAmounts)
    requires
        p.well_formed(),
        p.selling_price + crate::convert::SHIPPING_SURCHARGE_CENTS <= u32::MAX,
    ensures
        r.seller_cents == p.selling_price - p.foster_amount,
        r.foster_cents == p.foster_amount + crate::convert::SHIPPING_SURCHARGE_CENTS,
        r.total_cents == r.seller_cents + r.foster_cents,
        r.total_cents == p.selling_price + crate::convert::SHIPPING_SURCHARGE_CENTS,
{
    let seller_cents = p.selling_price - p.foster_amount;
    let foster_cents = p.foster_amount + crate::convert::SHIPPING_SURCHARGE_CENTS;
    OrderAmounts { seller_cents, foster_cents, total_cents: seller_cents + foster_cents }
}

/// The image shown for a product: the first add-on mockup when the
/// platform fulfills, the first product image when the seller does.
pub fn get_image_for_product(product: &MerchProductWithCurrentSupply) -> (r: Option<String>)
    ensures
        product.fulfillment_type is Foster ==> (if product.addon_mockup_urls@.len() > 0 {
            r matches Some(u) && u@ == product.addon_mockup_urls@[0]@
        } else {
            r is None
        }),
        product.fulfillment_type is User ==> (if product.product_images@.len() > 0 {
            r matches Some(u) && u@ == product.product_images@[0]@
        } else {
            r is None
        }),
{
    match product.fulfillment_type {
        FulfillmentType::Foster => {
            if product.addon_mockup_urls.len() > 0 {
                Some(product.addon_mockup_urls[0].clone())
            } else {
                None
            }
        },
        FulfillmentType::User => {
            if product.product_images.len() > 0 {
                Some(product.product_images[0].clone())
            } else {
                None
            }
        },
    }
}

} // verus!
