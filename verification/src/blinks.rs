//! Builders for the responses of the purchase-initiation and
//! confirmation operations, and the dispatch of NFT action names.

use vstd::prelude::*;

use crate::dto::ActionPostLinks;
use crate::dto::ActionPostResponse;
use crate::dto::NextAction;
use crate::strutil::dec_digits_signed;
use crate::strutil::i64_to_string;

verus! {

/// Web address of the marketplace on the main network.
pub const MAINNET_MARKETPLACE_URL: &'static str = "https://fostermarketplace.app";

/// Web address of the marketplace on the development network.
pub const DEVNET_MARKETPLACE_URL: &'static str = "https://devnet.fostermarketplace.app";

/// The marketplace address for a network name.
pub fn marketplace_base_url(network: &str) -> (r: &'static str)
    ensures
        network@ == "mainnet"@ ==> r@ == MAINNET_MARKETPLACE_URL@,
        network@ != "mainnet"@ ==> r@ == DEVNET_MARKETPLACE_URL@,
{
    if crate::strutil::str_eq(network, "mainnet") {
        MAINNET_MARKETPLACE_URL
    } else {
        DEVNET_MARKETPLACE_URL
    }
}

/// The confirmation path of an order, carrying the buyer's email and,
/// when one was chosen, the size.
pub open spec fn checkout_href(order_id: int, email: Seq<char>, size: Option<Seq<char>>) -> Seq<
    char,
> {
    "/blinks/merch/"@ + dec_digits_signed(order_id) + "/checkout?email="@ + email + (match size {
        Some(s) => "&size="@ + s,
        None => Seq::empty(),
    })
}

/// Builds the confirmation path of an order.
pub fn make_checkout_href(order_id: i64, email: &str, size: Option<&str>) -> (r: String)
    ensures
        r@ == checkout_href(
            order_id as int,
            email@,
            match size {
                Some(s) => Some(s@),
                None => None,
            },
        ),
{
    proof {
        reveal_strlit("/blinks/merch/");
        reveal_strlit("/checkout?email=");
        reveal_strlit("&size=");
    }
    let mut r: String = "/blinks/merch/".to_owned();
    let digits = i64_to_string(order_id);
    r.append(digits.as_str());
    r.append("/checkout?email=");
    r.append(email);
    match size {
        Some(s) => {
            r.append("&size=");
            r.append(s);
        },
        None => {},
    }
    proof {
        assert(r@ =~= checkout_href(
            order_id as int,
            email@,
            match size {
                Some(s) => Some(s@),
                None => None,
            },
        ));
    }
    r
}

/// The human message of a placed order: its number, the product, and
/// the chosen size when there is one.
pub open spec fn order_message(
    order_id: int,
    product_name: Seq<char>,
    size: Option<Seq<char>>,
) -> Seq<char> {
    "Placing Order #"@ + dec_digits_signed(order_id) + ": "@ + product_name + (match size {
        Some(s) => " | "@ + s,
        None => Seq::empty(),
    })
}

/// Builds the response of an accepted merchandise purchase: the
/// unsigned transaction, a message naming the order, and the
/// confirmation operation as the next step.
pub fn merch_post_response(
    blockchain_id: &str,
    transaction: String,
    order_id: i64,
    product_name: &str,
    email: &str,
    size: Option<&str>,
) -> (r: ActionPostResponse)
    ensures
        r.blockchain_id@ == blockchain_id@,
        r.transaction@ == transaction@,
        r.message matches Some(m) && m@ == order_message(
            order_id as int,
            product_name@,
            match size {
                Some(s) => Some(s@),
                None => None,
            },
        ),
        r.links matches Some(l) && l.next matches NextAction::Post { href } && href@
            == checkout_href(
            order_id as int,
            email@,
            match size {
                Some(s) => Some(s@),
                None => None,
            },
        ),
{
    proof {
        reveal_strlit("Placing Order #");
        reveal_strlit(": ");
        reveal_strlit(" | ");
    }
    let mut message: String = "Placing Order #".to_owned();
    let digits = i64_to_string(order_id);
    message.append(digits.as_str());
    message.append(": ");
    message.append(product_name);
    match size {
        Some(s) => {
            message.append(" | ");
            message.append(s);
        },
        None => {},
    }
    proof {
        assert(message@ =~= order_message(
            order_id as int,
            product_name@,
            match size {
                Some(s) => Some(s@),
                None => None,
            },
        ));
    }
    ActionPostResponse {
        blockchain_id: blockchain_id.to_owned(),
        transaction,
        message: Some(message),
        links: Some(
            ActionPostLinks { next: NextAction::Post { href: make_checkout_href(order_id, email, size) } },
        ),
    }
}

/// The terminal descriptor of a confirmed order.
pub fn completed_order_descriptor(
    blockchain_id: &str,
    base_url: &str,
    order_id: i64,
    icon: String,
) -> (r: crate::dto::ActionGetResponse)
    ensures
        r.blockchain_id@ == blockchain_id@,
        r.action_type is Completed,
        r.title@ == "Order #"@ + dec_digits_signed(order_id as int),
        r.description@ == "Manage your order at "@ + base_url@ + "/orders/"@ + dec_digits_signed(
            order_id as int,
        ),
        r.label@ == "Order placed successfully!"@,
        r.disabled == true,
        r.links.actions@.len() == 0,
        r.error is None,
{
    proof {
        reveal_strlit("Order #");
        reveal_strlit("Manage your order at ");
        reveal_strlit("/orders/");
        reveal_strlit("Order placed successfully!");
    }
    let digits = i64_to_string(order_id);
    let mut title: String = "Order #".to_owned();
    title.append(digits.as_str());
    let mut description: String = "Manage your order at ".to_owned();
    description.append(base_url);
    description.append("/orders/");
    description.append(digits.as_str());
    proof {
        assert(title@ =~= "Order #"@ + dec_digits_signed(order_id as int));
        assert(description@ =~= "Manage your order at "@ + base_url@ + "/orders/"@
            + dec_digits_signed(order_id as int));
    }
    crate::dto::ActionGetResponse {
        blockchain_id: blockchain_id.to_owned(),
        action_type: crate::dto::BlinkActionType::Completed,
        icon,
        title,
        description,
        label: "Order placed successfully!".to_owned(),
        disabled: true,
        links: crate::dto::LinkActions::none(),
        error: None,
    }
}

/// The descriptor answered after a print was indexed: the parent's
/// name and image with a success label, nothing disabled and no error.
pub fn print_indexed_descriptor(
    blockchain_id: &str,
    title: &str,
    description: String,
    icon: String,
) -> (r: crate::dto::ActionGetResponse)
    ensures
        r.blockchain_id@ == blockchain_id@,
        r.action_type is Action,
        r.title@ == title@,
        r.description@ == description@,
        r.icon@ == icon@,
        r.label@ == "NFT bought successfully!"@,
        r.disabled == false,
        r.links.actions@.len() == 0,
        r.error is None,
{
    crate::dto::ActionGetResponse {
        blockchain_id: blockchain_id.to_owned(),
        action_type: crate::dto::BlinkActionType::Action,
        icon,
        title: title.to_owned(),
        description,
        label: "NFT bought successfully!".to_owned(),
        disabled: false,
        links: crate::dto::LinkActions::none(),
        error: None,
    }
}

/// The action names a posted NFT blink may carry.
#[derive(Clone, Copy, PartialEq, Eq, Structural, Debug)]
pub enum NftBlinkAction {
    BuyPrint,
    Buy,
    Bid,
    PlaceOffer,
    Unknown,
}

/// Dispatches an NFT action name: only `buy-print` is implemented;
/// `buy`, `bid` and `place-offer` are recognized but not implemented,
/// and anything else is unknown.
pub fn classify_nft_action(action: &str) -> (r: NftBlinkAction)
    ensures
        action@ == "buy-print"@ <==> r is BuyPrint,
        action@ == "buy"@ <==> r is Buy,
        action@ == "bid"@ <==> r is Bid,
        action@ == "place-offer"@ <==> r is PlaceOffer,
{
    proof {
        reveal_strlit("buy-print");
        reveal_strlit("buy");
        reveal_strlit("bid");
        reveal_strlit("place-offer");
        assert("buy-print"@.len() == 9);
        assert("buy"@.len() == 3);
        assert("bid"@.len() == 3);
        assert("place-offer"@.len() == 11);
        assert("buy"@[1] == 'u' && "bid"@[1] == 'i');
    }
    if crate::strutil::str_eq(action, "buy-print") {
        NftBlinkAction::BuyPrint
    } else if crate::strutil::str_eq(action, "buy") {
        NftBlinkAction::Buy
    } else if crate::strutil::str_eq(action, "bid") {
        NftBlinkAction::Bid
    } else if crate::strutil::str_eq(action, "place-offer") {
        NftBlinkAction::PlaceOffer
    } else {
        NftBlinkAction::Unknown
    }
}

/// The indexing path of a freshly minted print.
pub open spec fn index_print_href(edition_mint: Seq<char>) -> Seq<char> {
    "/blinks/nft/index-print/"@ + edition_mint
}

/// Builds the response of a print purchase: the minting transaction,
/// the edition number, and the print-indexing operation as next step.
pub fn print_post_response(
    blockchain_id: &str,
    transaction: String,
    edition_number: u64,
    edition_mint: &str,
) -> (r: ActionPostResponse)
    ensures
        r.blockchain_id@ == blockchain_id@,
        r.transaction@ == transaction@,
        r.message matches Some(m) && m@ == "Minting Print Edition #"@ + crate::strutil::dec_digits(
            edition_number as nat,
        ),
        r.links matches Some(l) && l.next matches NextAction::Post { href } && href@
            == index_print_href(edition_mint@),
{
    proof {
        reveal_strlit("Minting Print Edition #");
        reveal_strlit("/blinks/nft/index-print/");
    }
    let mut message: String = "Minting Print Edition #".to_owned();
    let digits = crate::strutil::u64_to_string(edition_number);
    message.append(digits.as_str());
    let mut href: String = "/blinks/nft/index-print/".to_owned();
    href.append(edition_mint);
    proof {
        assert(message@ =~= "Minting Print Edition #"@ + crate::strutil::dec_digits(
            edition_number as nat,
        ));
        assert(href@ =~= index_print_href(edition_mint@));
    }
    ActionPostResponse {
        blockchain_id: blockchain_id.to_owned(),
        transaction,
        message: Some(message),
        links: Some(ActionPostLinks { next: NextAction::Post { href } }),
    }
}

} // verus!
