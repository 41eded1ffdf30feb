//! The action resolver: turns the state of a purchasable entity into
//! the descriptor a storefront renders — the available actions, their
//! labels with display prices, and their parameter schemas.

use vstd::prelude::*;

use crate::convert::cents_for_lamports;
use crate::convert::sol_hundredths;
use crate::convert::usd_cents_from_lamports;
use crate::convert::sol_display_hundredths;
use crate::convert::MAX_RATE_CENTS;
use crate::dto::ActionParameter;
use crate::dto::LinkedAction;
use crate::nft::minimum_bid_spec;
use crate::nft::resolved_minimum_bid;
use crate::nft::buy_print_total;
use crate::nft::buy_print_total_spec;
use crate::nft::NftSaleState;
use crate::nft::BID_INCREMENT_LAMPORTS;
use crate::nft::MIN_OFFER_LAMPORTS;
use crate::strutil::amount_2dp;
use crate::strutil::dec_digits;
use crate::strutil::format_2dp;
use crate::strutil::u64_to_string;

verus! {

/// Largest lamport amount the display helpers accept.
pub const MAX_DISPLAY_LAMPORTS: u64 = 1_000_000_000_000_000_000;

/// `◎amount (~$amount)`: a lamport price rendered as tokens with its
/// approximate fiat value at the display rate.
pub open spec fn price_tag(lamports: u64, rate_cents: u64) -> Seq<char> {
    "\u{25ce}"@ + amount_2dp(sol_hundredths(lamports as int) as nat) + " (~$"@ + amount_2dp(
        cents_for_lamports(lamports as int, rate_cents as int) as nat,
    ) + ")"@
}

/// Renders a lamport price with its approximate fiat value.
fn make_price_tag(lamports: u64, rate_cents: u64) -> (s: String)
    requires
        lamports <= MAX_DISPLAY_LAMPORTS,
        rate_cents <= MAX_RATE_CENTS,
    ensures
        s@ == price_tag(lamports, rate_cents),
{
    let solh = sol_display_hundredths(lamports);
    let cents = usd_cents_from_lamports(lamports, rate_cents);
    proof {
        reveal_strlit("\u{25ce}");
        reveal_strlit(" (~$");
        reveal_strlit(")");
    }
    let mut s: String = "\u{25ce}".to_owned();
    let sol_part = format_2dp(solh);
    s.append(sol_part.as_str());
    s.append(" (~$");
    let usd_part = format_2dp(cents);
    s.append(usd_part.as_str());
    s.append(")");
    proof {
        assert(s@ =~= price_tag(lamports, rate_cents));
    }
    s
}

/// The path prefix of every NFT action: `/blinks/nft/<token>/`.
pub open spec fn nft_href_base(token_id: Seq<char>) -> Seq<char> {
    "/blinks/nft/"@ + token_id + "/"@
}

/// Builds `/blinks/nft/<token>/<action>`.
fn make_nft_href(token_id: &str, action: &str) -> (s: String)
    ensures
        s@ == nft_href_base(token_id@) + action@,
{
    proof {
        reveal_strlit("/blinks/nft/");
        reveal_strlit("/");
    }
    let mut s: String = "/blinks/nft/".to_owned();
    s.append(token_id);
    s.append("/");
    s.append(action);
    proof {
        assert(s@ =~= nft_href_base(token_id@) + action@);
    }
    s
}

/// A required number parameter named `price` with a least value.
pub open spec fn is_price_parameter(p: ActionParameter, min: u64) -> bool {
    &&& p.parameter_type@ == "number"@
    &&& p.name@ == "price"@
    &&& p.label@ == "Custom amount"@
    &&& p.required == true
    &&& p.options@.len() == 0
    &&& p.min == Some(min)
}

/// Builds the required `price` number parameter.
fn make_price_parameter(min: u64) -> (p: ActionParameter)
    ensures
        is_price_parameter(p, min),
{
    ActionParameter {
        parameter_type: "number".to_owned(),
        name: "price".to_owned(),
        label: "Custom amount".to_owned(),
        required: true,
        options: Vec::new(),
        min: Some(min),
    }
}

/// The one-click purchase link of a fixed-price listing.
pub open spec fn is_buy_now_link(
    l: LinkedAction,
    token_id: Seq<char>,
    price_lamports: u64,
    rate_cents: u64,
) -> bool {
    &&& l.label@ == "Buy now for "@ + price_tag(price_lamports, rate_cents)
    &&& l.href@ == nft_href_base(token_id) + "buy"@
    &&& l.parameters@.len() == 0
}

/// The one-click minimum-bid link of an auction.
pub open spec fn is_min_bid_link(
    l: LinkedAction,
    token_id: Seq<char>,
    min_bid_lamports: u64,
    rate_cents: u64,
) -> bool {
    &&& l.label@ == "Place bid for "@ + price_tag(min_bid_lamports, rate_cents)
    &&& l.href@ == nft_href_base(token_id) + "bid?price="@ + dec_digits(min_bid_lamports as nat)
    &&& l.parameters@.len() == 0
}

/// The custom-amount bid link of an auction, with the minimum bid as
/// the least accepted value.
pub open spec fn is_custom_bid_link(
    l: LinkedAction,
    token_id: Seq<char>,
    min_bid_lamports: u64,
) -> bool {
    &&& l.label@ == "Place bid"@
    &&& l.href@ == nft_href_base(token_id) + "bid"@
    &&& l.parameters@.len() == 1
    &&& is_price_parameter(l.parameters@[0], min_bid_lamports)
}

/// The print-purchase link of a master edition.
pub open spec fn is_buy_print_link(
    l: LinkedAction,
    token_id: Seq<char>,
    total_lamports: u64,
    rate_cents: u64,
) -> bool {
    &&& l.label@ == "Buy for "@ + price_tag(total_lamports, rate_cents)
    &&& l.href@ == nft_href_base(token_id) + "buy-print"@
    &&& l.parameters@.len() == 0
}

/// The free-form offer link of an NFT with no active sale mechanism.
pub open spec fn is_offer_link(l: LinkedAction, token_id: Seq<char>) -> bool {
    &&& l.label@ == "Place offer"@
    &&& l.href@ == nft_href_base(token_id) + "place-offer"@
    &&& l.parameters@.len() == 1
    &&& is_price_parameter(l.parameters@[0], MIN_OFFER_LAMPORTS)
}

/// Resolves the actions available on an NFT from its sale state:
/// exactly one branch is taken, selected by variant — a listing offers
/// its buy link, an auction its two bid links, a master edition its
/// print link, and anything else a free-form offer link. Links of other
/// branches never appear.
pub fn nft_action_links(token_id: &str, state: &NftSaleState, rate_cents: u64) -> (links: Vec<
    LinkedAction,
>)
    requires
        rate_cents <= MAX_RATE_CENTS,
        state matches NftSaleState::Listed { list_price_lamports } ==> *list_price_lamports
            <= MAX_DISPLAY_LAMPORTS,
        state matches NftSaleState::Auction { highest_bid_lamports, reserve_price_lamports }
            ==> (*highest_bid_lamports matches Some(h) ==> h <= MAX_DISPLAY_LAMPORTS
            - BID_INCREMENT_LAMPORTS) && *reserve_price_lamports <= MAX_DISPLAY_LAMPORTS,
        state matches NftSaleState::MasterEdition { price_lamports, merch_foster_amount_cents }
            ==> *price_lamports <= MAX_DISPLAY_LAMPORTS && buy_print_total_spec(
            *price_lamports,
            *merch_foster_amount_cents,
            rate_cents,
        ) <= MAX_DISPLAY_LAMPORTS,
    ensures
        state matches NftSaleState::Listed { list_price_lamports } ==> links@.len() == 1
            && is_buy_now_link(links@[0], token_id@, *list_price_lamports, rate_cents),
        state matches NftSaleState::Auction { highest_bid_lamports, reserve_price_lamports }
            ==> links@.len() == 2 && is_min_bid_link(
            links@[0],
            token_id@,
            minimum_bid_spec(*highest_bid_lamports, *reserve_price_lamports) as u64,
            rate_cents,
        ) && is_custom_bid_link(
            links@[1],
            token_id@,
            minimum_bid_spec(*highest_bid_lamports, *reserve_price_lamports) as u64,
        ),
        state matches NftSaleState::MasterEdition { price_lamports, merch_foster_amount_cents }
            ==> links@.len() == 1 && is_buy_print_link(
            links@[0],
            token_id@,
            buy_print_total_spec(*price_lamports, *merch_foster_amount_cents, rate_cents) as u64,
            rate_cents,
        ),
        state is OfferOnly ==> links@.len() == 1 && is_offer_link(links@[0], token_id@),
{
    let mut links: Vec<LinkedAction> = Vec::new();
    match state {
        NftSaleState::Listed { list_price_lamports } => {
            proof {
                reveal_strlit("Buy now for ");
                reveal_strlit("buy");
            }
            let mut label: String = "Buy now for ".to_owned();
            let tag = make_price_tag(*list_price_lamports, rate_cents);
            label.append(tag.as_str());
            links.push(LinkedAction {
                label,
                href: make_nft_href(token_id, "buy"),
                parameters: Vec::new(),
            });
        },
        NftSaleState::Auction { highest_bid_lamports, reserve_price_lamports } => {
            let min_bid = resolved_minimum_bid(*highest_bid_lamports, *reserve_price_lamports);
            proof {
                reveal_strlit("Place bid for ");
                reveal_strlit("Place bid");
                reveal_strlit("bid?price=");
                reveal_strlit("bid");
            }
            let mut label: String = "Place bid for ".to_owned();
            let tag = make_price_tag(min_bid, rate_cents);
            label.append(tag.as_str());
            let mut href: String = make_nft_href(token_id, "bid?price=");
            let digits = u64_to_string(min_bid);
            href.append(digits.as_str());
            links.push(LinkedAction { label, href, parameters: Vec::new() });
            let mut parameters: Vec<ActionParameter> = Vec::new();
            parameters.push(make_price_parameter(min_bid));
            links.push(LinkedAction {
                label: "Place bid".to_owned(),
                href: make_nft_href(token_id, "bid"),
                parameters,
            });
        },
        NftSaleState::MasterEdition { price_lamports, merch_foster_amount_cents } => {
            let total = buy_print_total(*price_lamports, *merch_foster_amount_cents, rate_cents);
            proof {
                reveal_strlit("Buy for ");
                reveal_strlit("buy-print");
                assert(total <= MAX_DISPLAY_LAMPORTS);
            }
            let mut label: String = "Buy for ".to_owned();
            let tag = make_price_tag(total, rate_cents);
            label.append(tag.as_str());
            links.push(LinkedAction {
                label,
                href: make_nft_href(token_id, "buy-print"),
                parameters: Vec::new(),
            });
        },
        NftSaleState::OfferOnly => {
            proof {
                reveal_strlit("Place offer");
                reveal_strlit("place-offer");
            }
            let mut parameters: Vec<ActionParameter> = Vec::new();
            parameters.push(make_price_parameter(MIN_OFFER_LAMPORTS));
            links.push(LinkedAction {
                label: "Place offer".to_owned(),
                href: make_nft_href(token_id, "place-offer"),
                parameters,
            });
        },
    }
    links
}

/// A required email parameter.
pub open spec fn is_email_parameter(p: ActionParameter) -> bool {
    &&& p.parameter_type@ == "email"@
    &&& p.name@ == "email"@
    &&& p.label@ == "Email"@
    &&& p.required == true
    &&& p.options@.len() == 0
    &&& p.min is None
}

/// A required free-text shipping-address parameter.
pub open spec fn is_address_parameter(p: ActionParameter) -> bool {
    &&& p.parameter_type@ == "textarea"@
    &&& p.name@ == "address"@
    &&& p.label@ == "Shipping Address"@
    &&& p.required == true
    &&& p.options@.len() == 0
    &&& p.min is None
}

/// The required size selector with its six fixed choices.
pub open spec fn is_size_parameter(p: ActionParameter) -> bool {
    &&& p.parameter_type@ == "select"@
    &&& p.name@ == "size"@
    &&& p.label@ == "Size"@
    &&& p.required == true
    &&& p.min is None
    &&& p.options@.len() == 6
    &&& p.options@[0].label@ == "Small"@ && p.options@[0].value@ == "S"@
    &&& p.options@[1].label@ == "Medium"@ && p.options@[1].value@ == "M"@
    &&& p.options@[2].label@ == "Large"@ && p.options@[2].value@ == "L"@
    &&& p.options@[3].label@ == "Extra Large"@ && p.options@[3].value@ == "XL"@
    &&& p.options@[4].label@ == "2XL"@ && p.options@[4].value@ == "XXL"@
    &&& p.options@[5].label@ == "3XL"@ && p.options@[5].value@ == "XXXL"@
}

fn make_email_parameter() -> (p: ActionParameter)
    ensures
        is_email_parameter(p),
{
    ActionParameter {
        parameter_type: "email".to_owned(),
        name: "email".to_owned(),
        label: "Email".to_owned(),
        required: true,
        options: Vec::new(),
        min: None,
    }
}

fn make_address_parameter() -> (p: ActionParameter)
    ensures
        is_address_parameter(p),
{
    ActionParameter {
        parameter_type: "textarea".to_owned(),
        name: "address".to_owned(),
        label: "Shipping Address".to_owned(),
        required: true,
        options: Vec::new(),
        min: None,
    }
}

fn make_size_parameter() -> (p: ActionParameter)
    ensures
        is_size_parameter(p),
{
    let mut options: Vec<crate::dto::ActionParameterOption> = Vec::new();
    options.push(crate::dto::ActionParameterOption {
        label: "Small".to_owned(),
        value: "S".to_owned(),
    });
    options.push(crate::dto::ActionParameterOption {
        label: "Medium".to_owned(),
        value: "M".to_owned(),
    });
    options.push(crate::dto::ActionParameterOption {
        label: "Large".to_owned(),
        value: "L".to_owned(),
    });
    options.push(crate::dto::ActionParameterOption {
        label: "Extra Large".to_owned(),
        value: "XL".to_owned(),
    });
    options.push(crate::dto::ActionParameterOption {
        label: "2XL".to_owned(),
        value: "XXL".to_owned(),
    });
    options.push(crate::dto::ActionParameterOption {
        label: "3XL".to_owned(),
        value: "XXXL".to_owned(),
    });
    ActionParameter {
        parameter_type: "select".to_owned(),
        name: "size".to_owned(),
        label: "Size".to_owned(),
        required: true,
        options,
        min: None,
    }
}

/// The purchase path of a merchandise item, with the placeholders the
/// client fills from the parameter schema.
pub open spec fn merch_href(artist: Seq<char>, item_id: int) -> Seq<char> {
    "/v1/blinks/"@ + artist + "/merch/"@ + crate::strutil::dec_digits_signed(item_id)
        + "/?size={size}&email={email}&address={address}"@
}

fn make_merch_href(artist: &str, item_id: i64) -> (s: String)
    ensures
        s@ == merch_href(artist@, item_id as int),
{
    proof {
        reveal_strlit("/v1/blinks/");
        reveal_strlit("/merch/");
        reveal_strlit("/?size={size}&email={email}&address={address}");
    }
    let mut s: String = "/v1/blinks/".to_owned();
    s.append(artist);
    s.append("/merch/");
    let digits = crate::strutil::i64_to_string(item_id);
    s.append(digits.as_str());
    s.append("/?size={size}&email={email}&address={address}");
    proof {
        assert(s@ =~= merch_href(artist@, item_id as int));
    }
    s
}

/// `Buy for ◎tokens | $fiat`: the label of the merchandise buy link.
pub open spec fn merch_buy_label(display_cents: u64, lamports: u64) -> Seq<char> {
    "Buy for \u{25ce}"@ + amount_2dp(sol_hundredths(lamports as int) as nat) + " | $"@
        + amount_2dp(display_cents as nat)
}

fn make_merch_buy_label(display_cents: u64, lamports: u64) -> (s: String)
    requires
        lamports <= MAX_DISPLAY_LAMPORTS,
    ensures
        s@ == merch_buy_label(display_cents, lamports),
{
    proof {
        reveal_strlit("Buy for \u{25ce}");
        reveal_strlit(" | $");
    }
    let mut s: String = "Buy for \u{25ce}".to_owned();
    let solh = sol_display_hundredths(lamports);
    let sol_part = format_2dp(solh);
    s.append(sol_part.as_str());
    s.append(" | $");
    let usd_part = format_2dp(display_cents);
    s.append(usd_part.as_str());
    proof {
        assert(s@ =~= merch_buy_label(display_cents, lamports));
    }
    s
}

/// The listing branch and the auction branch are mutually exclusive:
/// no single action can be both a listing's buy link and one of an
/// auction's bid links, whatever the entities' prices — the labels
/// already differ in their first character.
pub proof fn lemma_nft_branches_exclusive(
    l: LinkedAction,
    t1: Seq<char>,
    t2: Seq<char>,
    price: u64,
    min_bid: u64,
    r1: u64,
    r2: u64,
)
    ensures
        !(is_buy_now_link(l, t1, price, r1) && is_min_bid_link(l, t2, min_bid, r2)),
        !(is_buy_now_link(l, t1, price, r1) && is_custom_bid_link(l, t2, min_bid)),
{
    reveal_strlit("Buy now for ");
    reveal_strlit("Place bid for ");
    reveal_strlit("Place bid");
    if is_buy_now_link(l, t1, price, r1) && is_min_bid_link(l, t2, min_bid, r2) {
        assert(l.label@[0] == 'B');
        assert(l.label@[0] == 'P');
    }
    if is_buy_now_link(l, t1, price, r1) && is_custom_bid_link(l, t2, min_bid) {
        assert(l.label@[0] == 'B');
        assert(l.label@[0] == 'P');
    }
}

/// The icon of a product descriptor: its image when one is recorded,
/// otherwise empty.
pub open spec fn product_icon(p: crate::product::MerchProductWithCurrentSupply) -> Seq<char> {
    match p.fulfillment_type {
        crate::product::FulfillmentType::Foster => if p.addon_mockup_urls@.len() > 0 {
            p.addon_mockup_urls@[0]@
        } else {
            Seq::empty()
        },
        crate::product::FulfillmentType::User => if p.product_images@.len() > 0 {
            p.product_images@[0]@
        } else {
            Seq::empty()
        },
    }
}

/// Resolves the descriptor of a merchandise item. A product that is
/// sold out or outside its sale window yields a disabled descriptor
/// with an explanatory error and no purchasable links — still a
/// well-formed descriptor, not a transport failure. Otherwise one buy
/// link is offered, whose schema always asks for email and shipping
/// address, and for a size only when the platform fulfills the order.
pub fn merch_item_descriptor(
    blockchain_id: &str,
    artist: &str,
    item_id: i64,
    product: &crate::product::MerchProductWithCurrentSupply,
    rate_cents: u64,
    now: i64,
) -> (r: crate::dto::ActionGetResponse)
    requires
        product.selling_price + crate::convert::SHIPPING_SURCHARGE_CENTS <= u32::MAX,
        crate::convert::lamports_for_cents(
            product.selling_price + crate::convert::SHIPPING_SURCHARGE_CENTS,
            rate_cents as int,
        ) <= MAX_DISPLAY_LAMPORTS,
    ensures
        r.blockchain_id@ == blockchain_id@,
        r.title@ == product.name@,
        r.description@ == product.description@,
        r.label@ == "Buy"@,
        r.icon@ == product_icon(*product),
        r.action_type is Action,
        !crate::product::purchasable(*product, now) ==> r.disabled == true && r.links.actions@.len()
            == 0 && r.error is Some,
        crate::product::sold_out(*product) ==> r.disabled == true && r.links.actions@.len() == 0,
        crate::product::purchasable(*product, now) ==> {
            &&& r.disabled == false
            &&& r.error is None
            &&& r.links.actions@.len() == 1
            &&& r.links.actions@[0].href@ == merch_href(artist@, item_id as int)
            &&& r.links.actions@[0].label@ == merch_buy_label(
                (product.selling_price + crate::convert::SHIPPING_SURCHARGE_CENTS) as u64,
                crate::convert::lamports_for_cents(
                    product.selling_price + crate::convert::SHIPPING_SURCHARGE_CENTS,
                    rate_cents as int,
                ) as u64,
            )
            &&& (product.fulfillment_type is Foster ==> r.links.actions@[0].parameters@.len() == 3
                && is_size_parameter(r.links.actions@[0].parameters@[0]) && is_email_parameter(
                r.links.actions@[0].parameters@[1],
            ) && is_address_parameter(r.links.actions@[0].parameters@[2]))
            &&& (product.fulfillment_type is User ==> r.links.actions@[0].parameters@.len() == 2
                && is_email_parameter(r.links.actions@[0].parameters@[0]) && is_address_parameter(
                r.links.actions@[0].parameters@[1],
            ))
        },
{
    proof {
        reveal_strlit("Buy");
    }
    let icon = match crate::product::get_image_for_product(product) {
        Some(u) => u,
        None => String::new(),
    };
    match crate::product::validate_purchase(product, now) {
        Err(rejection) => {
            let message = crate::product::purchase_rejection_message(product, &rejection);
            crate::dto::ActionGetResponse {
                blockchain_id: blockchain_id.to_owned(),
                action_type: crate::dto::BlinkActionType::Action,
                icon,
                title: product.name.clone(),
                description: product.description.clone(),
                label: "Buy".to_owned(),
                disabled: true,
                links: crate::dto::LinkActions::none(),
                error: Some(crate::dto::ActionError { message }),
            }
        },
        Ok(()) => {
            let display_cents: u32 = product.selling_price
                + crate::convert::SHIPPING_SURCHARGE_CENTS;
            let lamports = crate::convert::lamports_from_usd_cents(
                display_cents as u64,
                rate_cents,
            );
            let mut parameters: Vec<ActionParameter> = Vec::new();
            match product.fulfillment_type {
                crate::product::FulfillmentType::Foster => {
                    parameters.push(make_size_parameter());
                },
                crate::product::FulfillmentType::User => {},
            }
            parameters.push(make_email_parameter());
            parameters.push(make_address_parameter());
            let mut actions: Vec<LinkedAction> = Vec::new();
            actions.push(LinkedAction {
                label: make_merch_buy_label(display_cents as u64, lamports),
                href: make_merch_href(artist, item_id),
                parameters,
            });
            crate::dto::ActionGetResponse {
                blockchain_id: blockchain_id.to_owned(),
                action_type: crate::dto::BlinkActionType::Action,
                icon,
                title: product.name.clone(),
                description: product.description.clone(),
                label: "Buy".to_owned(),
                disabled: false,
                links: crate::dto::LinkActions { actions },
                error: None,
            }
        },
    }
}

/// A disabled descriptor for an entity that could not be resolved, so
/// the storefront renders an explanation instead of a transport error.
pub fn unavailable_descriptor(
    blockchain_id: &str,
    title: &str,
    description: String,
    error_message: String,
) -> (r: crate::dto::ActionGetResponse)
    ensures
        r.blockchain_id@ == blockchain_id@,
        r.title@ == title@,
        r.description@ == description@,
        r.label@ == "Buy"@,
        r.disabled == true,
        r.links.actions@.len() == 0,
        r.error matches Some(e) && e.message@ == error_message@,
        r.action_type is Action,
        r.icon@ == Seq::<char>::empty(),
{
    proof {
        reveal_strlit("Buy");
    }
    crate::dto::ActionGetResponse {
        blockchain_id: blockchain_id.to_owned(),
        action_type: crate::dto::BlinkActionType::Action,
        icon: String::new(),
        title: title.to_owned(),
        description,
        label: "Buy".to_owned(),
        disabled: true,
        links: crate::dto::LinkActions::none(),
        error: Some(crate::dto::ActionError { message: error_message }),
    }
}

/// Media kinds that are shown through their cover image rather than the
/// raw asset: videos, audio, and VR scenes.
pub open spec fn uses_cover_image(asset_type: Seq<char>) -> bool {
    ||| asset_type.len() >= 5 && asset_type.subrange(0, 5) == "video"@
    ||| asset_type.len() >= 5 && asset_type.subrange(0, 5) == "audio"@
    ||| asset_type == "vr"@
}

/// Prefix of the image-resizing proxy every NFT image is served
/// through.
pub open spec fn cdn_prefix() -> Seq<char> {
    "https://cdn.helius-rpc.com/cdn-cgi/image/quality=75/"@
}

/// The image shown for an NFT: the cover image for video, audio and VR
/// assets (when one exists), else the asset itself, served through the
/// resizing proxy.
pub fn get_image_for_nft(nft: &crate::nft::SingleNftResponse) -> (r: Option<String>)
    ensures
        uses_cover_image(nft.asset_type@) && nft.cover_image_url is None ==> r is None,
        nft.cover_image_url is Some && uses_cover_image(nft.asset_type@) ==> (r matches Some(s)
            && s@ == cdn_prefix() + nft.cover_image_url->Some_0@),
        !uses_cover_image(nft.asset_type@) ==> (r matches Some(s) && s@ == cdn_prefix()
            + nft.asset_url@),
{
    proof {
        reveal_strlit("video");
        reveal_strlit("audio");
        reveal_strlit("vr");
        reveal_strlit("https://cdn.helius-rpc.com/cdn-cgi/image/quality=75/");
    }
    let covered = crate::strutil::str_starts_with(nft.asset_type.as_str(), "video")
        || crate::strutil::str_starts_with(nft.asset_type.as_str(), "audio")
        || crate::strutil::str_eq(nft.asset_type.as_str(), "vr");
    let source: Option<&String> = if covered {
        match &nft.cover_image_url {
            Some(u) => Some(u),
            None => None,
        }
    } else {
        Some(&nft.asset_url)
    };
    match source {
        Some(u) => {
            let mut s: String = "https://cdn.helius-rpc.com/cdn-cgi/image/quality=75/".to_owned();
            s.append(u.as_str());
            Some(s)
        },
        None => None,
    }
}

/// The description block of an NFT descriptor: the indexed description,
/// a blank line, and the artist credit.
pub open spec fn nft_description_block(das_description: Seq<char>, artist_name: Seq<char>) -> Seq<
    char,
> {
    das_description + "\n\nnft by "@ + artist_name
}

/// Resolves the descriptor of an NFT: title, image, description with
/// artist credit, and the links of exactly the branch its sale state
/// selects.
pub fn nft_descriptor(
    blockchain_id: &str,
    nft: &crate::nft::SingleNftResponse,
    rate_cents: u64,
    das_description: &str,
    artist_name: &str,
) -> (r: crate::dto::ActionGetResponse)
    requires
        rate_cents <= MAX_RATE_CENTS,
        nft.sale_state matches NftSaleState::Listed { list_price_lamports } ==> list_price_lamports
            <= MAX_DISPLAY_LAMPORTS,
        nft.sale_state matches NftSaleState::Auction { highest_bid_lamports, reserve_price_lamports }
            ==> (highest_bid_lamports matches Some(h) ==> h <= MAX_DISPLAY_LAMPORTS
            - BID_INCREMENT_LAMPORTS) && reserve_price_lamports <= MAX_DISPLAY_LAMPORTS,
        nft.sale_state matches NftSaleState::MasterEdition { price_lamports, merch_foster_amount_cents }
            ==> price_lamports <= MAX_DISPLAY_LAMPORTS && buy_print_total_spec(
            price_lamports,
            merch_foster_amount_cents,
            rate_cents,
        ) <= MAX_DISPLAY_LAMPORTS,
    ensures
        r.blockchain_id@ == blockchain_id@,
        r.title@ == nft.nft_name@,
        r.description@ == nft_description_block(das_description@, artist_name@),
        r.disabled == false,
        r.error is None,
        r.action_type is Action,
        nft.sale_state matches NftSaleState::Listed { list_price_lamports } ==> r.links.actions@.len()
            == 1 && is_buy_now_link(r.links.actions@[0], nft.token_id@, list_price_lamports, rate_cents),
        nft.sale_state matches NftSaleState::Auction { highest_bid_lamports, reserve_price_lamports }
            ==> r.links.actions@.len() == 2 && is_min_bid_link(
            r.links.actions@[0],
            nft.token_id@,
            minimum_bid_spec(highest_bid_lamports, reserve_price_lamports) as u64,
            rate_cents,
        ) && is_custom_bid_link(
            r.links.actions@[1],
            nft.token_id@,
            minimum_bid_spec(highest_bid_lamports, reserve_price_lamports) as u64,
        ),
        nft.sale_state matches NftSaleState::MasterEdition { price_lamports, merch_foster_amount_cents }
            ==> r.links.actions@.len() == 1 && is_buy_print_link(
            r.links.actions@[0],
            nft.token_id@,
            buy_print_total_spec(price_lamports, merch_foster_amount_cents, rate_cents) as u64,
            rate_cents,
        ),
        nft.sale_state is OfferOnly ==> r.links.actions@.len() == 1 && is_offer_link(
            r.links.actions@[0],
            nft.token_id@,
        ),
{
    let actions = nft_action_links(nft.token_id.as_str(), &nft.sale_state, rate_cents);
    let icon = match get_image_for_nft(nft) {
        Some(u) => u,
        None => String::new(),
    };
    proof {
        reveal_strlit("\n\nnft by ");
        reveal_strlit("Buy");
    }
    let mut description: String = das_description.to_owned();
    description.append("\n\nnft by ");
    description.append(artist_name);
    proof {
        assert(description@ =~= nft_description_block(das_description@, artist_name@));
    }
    crate::dto::ActionGetResponse {
        blockchain_id: blockchain_id.to_owned(),
        action_type: crate::dto::BlinkActionType::Action,
        icon,
        title: nft.nft_name.clone(),
        description,
        label: "Buy".to_owned(),
        disabled: false,
        links: crate::dto::LinkActions { actions },
        error: None,
    }
}

} // verus!
