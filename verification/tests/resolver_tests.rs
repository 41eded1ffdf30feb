use blink_engine::dto::ActionGetResponse;
use blink_engine::nft::NftSaleState;
use blink_engine::nft::SingleNftResponse;
use blink_engine::product::validate_purchase;
use blink_engine::product::parse_fulfillment_type;
use blink_engine::product::FulfillmentType;
use blink_engine::product::MerchProductWithCurrentSupply;
use blink_engine::product::PurchaseRejection;
use blink_engine::resolver::get_image_for_nft;
use blink_engine::resolver::merch_item_descriptor;
use blink_engine::resolver::nft_action_links;
use blink_engine::resolver::nft_descriptor;
use blink_engine::resolver::unavailable_descriptor;

fn sample_product(fulfillment_type: FulfillmentType) -> MerchProductWithCurrentSupply {
    MerchProductWithCurrentSupply {
        id: 7,
        name: "Tour Shirt".to_string(),
        description: "A shirt.".to_string(),
        selling_price: 2000,
        foster_amount: 300,
        supply: None,
        current_supply: 0,
        sale_start_at: None,
        sale_end_at: None,
        fulfillment_type,
        user_id: 11,
        addon_mockup_urls: vec!["https://img.example/mockup.png".to_string()],
        addon_raw_urls: vec![],
        product_images: vec!["https://img.example/shirt.png".to_string()],
        print_technique: None,
    }
}

#[test]
fn fulfillment_type_tags() {
    assert!(matches!(parse_fulfillment_type("foster"), Ok(FulfillmentType::Foster)));
    assert!(matches!(parse_fulfillment_type("user"), Ok(FulfillmentType::User)));
    assert!(parse_fulfillment_type("warehouse").is_err());
}

// A product whose sold count reached its supply cap always yields a
// disabled descriptor with no purchasable links.
#[test]
fn sold_out_product_is_disabled() {
    let mut product = sample_product(FulfillmentType::User);
    product.supply = Some(5);
    product.current_supply = 5;
    let r: ActionGetResponse = merch_item_descriptor("chain:1", "artist", 7, &product, 10_000, 1_000);
    assert!(r.disabled);
    assert!(r.links.actions.is_empty());
    assert!(r.error.is_some());
}

// A purchase before the sale opens or after it closes is rejected with
// a domain error, never allowed through.
#[test]
fn purchase_outside_sale_window_is_rejected() {
    let mut product = sample_product(FulfillmentType::User);
    product.sale_start_at = Some(1_000);
    product.sale_end_at = Some(2_000);
    assert!(matches!(validate_purchase(&product, 999), Err(PurchaseRejection::NotYetOnSale)));
    assert!(matches!(validate_purchase(&product, 2_001), Err(PurchaseRejection::SaleEnded)));
    assert!(validate_purchase(&product, 1_500).is_ok());
    assert!(validate_purchase(&product, 1_000).is_ok());
    assert!(validate_purchase(&product, 2_000).is_ok());
}

#[test]
fn merch_descriptor_offers_one_buy_link() {
    let product = sample_product(FulfillmentType::User);
    let r = merch_item_descriptor("chain:1", "artist", 7, &product, 10_000, 1_000);
    assert_eq!(r.blockchain_id, "chain:1");
    assert!(!r.disabled);
    assert!(r.error.is_none());
    assert_eq!(r.title, "Tour Shirt");
    assert_eq!(r.icon, "https://img.example/shirt.png");
    assert_eq!(r.links.actions.len(), 1);
    let link = &r.links.actions[0];
    // 3500 cents at 100 fiat/token with 2% slippage is 0.357 token,
    // shown as 0.36
    assert_eq!(link.label, "Buy for \u{25ce}0.36 | $35.00");
    assert_eq!(link.href, "/v1/blinks/artist/merch/7/?size={size}&email={email}&address={address}");
    assert_eq!(link.parameters.len(), 2);
    assert_eq!(link.parameters[0].name, "email");
    assert_eq!(link.parameters[1].name, "address");
}

#[test]
fn operator_fulfilled_product_asks_for_size() {
    let product = sample_product(FulfillmentType::Foster);
    let r = merch_item_descriptor("chain:1", "artist", 7, &product, 10_000, 1_000);
    assert_eq!(r.icon, "https://img.example/mockup.png");
    let link = &r.links.actions[0];
    assert_eq!(link.parameters.len(), 3);
    let size = &link.parameters[0];
    assert_eq!(size.name, "size");
    assert_eq!(size.parameter_type, "select");
    assert!(size.required);
    let values: Vec<&str> = size.options.iter().map(|o| o.value.as_str()).collect();
    assert_eq!(values, vec!["S", "M", "L", "XL", "XXL", "XXXL"]);
    assert_eq!(link.parameters[1].name, "email");
    assert_eq!(link.parameters[2].name, "address");
}

#[test]
fn unavailable_descriptor_reports_error() {
    let r = unavailable_descriptor(
        "chain:1",
        "Invalid Product",
        "Could not find product with id 9".to_string(),
        "no such product".to_string(),
    );
    assert!(r.disabled);
    assert!(r.links.actions.is_empty());
    assert_eq!(r.error.unwrap().message, "no such product");
}

// The action branches are exclusive: an auction never shows the
// listing's buy link, and a listing never shows bid links.
#[test]
fn auction_branch_excludes_listing_link() {
    let auction = NftSaleState::Auction {
        highest_bid_lamports: None,
        reserve_price_lamports: 0,
    };
    let links = nft_action_links("tok", &auction, 10_000);
    assert_eq!(links.len(), 2);
    // minimum bid is the 0.1-token floor
    assert_eq!(links[0].label, "Place bid for \u{25ce}0.10 (~$10.00)");
    assert_eq!(links[0].href, "/blinks/nft/tok/bid?price=100000000");
    assert_eq!(links[1].label, "Place bid");
    assert_eq!(links[1].href, "/blinks/nft/tok/bid");
    assert_eq!(links[1].parameters.len(), 1);
    assert_eq!(links[1].parameters[0].min, Some(100_000_000));
    for l in &links {
        assert!(!l.label.starts_with("Buy now"));
    }
}

#[test]
fn listing_branch_excludes_bid_links() {
    let listed = NftSaleState::Listed { list_price_lamports: 1_500_000_000 };
    let links = nft_action_links("tok", &listed, 10_000);
    assert_eq!(links.len(), 1);
    assert_eq!(links[0].label, "Buy now for \u{25ce}1.50 (~$150.00)");
    assert_eq!(links[0].href, "/blinks/nft/tok/buy");
    assert!(links[0].parameters.is_empty());
    assert!(!links[0].label.starts_with("Place bid"));
}

#[test]
fn master_edition_offers_print_link() {
    let state = NftSaleState::MasterEdition {
        price_lamports: 500_000_000,
        merch_foster_amount_cents: Some(300),
    };
    let links = nft_action_links("tok", &state, 10_000);
    assert_eq!(links.len(), 1);
    // 500_000_000 + 30_600_000 = 530_600_000, shown as 0.53
    assert_eq!(links[0].label, "Buy for \u{25ce}0.53 (~$53.06)");
    assert_eq!(links[0].href, "/blinks/nft/tok/buy-print");
}

#[test]
fn offer_only_nft_offers_custom_offer() {
    let links = nft_action_links("tok", &NftSaleState::OfferOnly, 10_000);
    assert_eq!(links.len(), 1);
    assert_eq!(links[0].label, "Place offer");
    assert_eq!(links[0].href, "/blinks/nft/tok/place-offer");
    assert_eq!(links[0].parameters[0].min, Some(10_000_000));
}

fn sample_nft(sale_state: NftSaleState) -> SingleNftResponse {
    SingleNftResponse {
        token_id: "tok".to_string(),
        nft_name: "Genesis".to_string(),
        minter_id: "minter".to_string(),
        asset_type: "image/png".to_string(),
        asset_url: "https://img.example/a.png".to_string(),
        cover_image_url: Some("https://img.example/cover.png".to_string()),
        collection_id: Some(3),
        categories: vec!["art".to_string()],
        royalties: 500,
        sale_state,
    }
}

#[test]
fn nft_image_prefers_cover_for_video() {
    let mut nft = sample_nft(NftSaleState::OfferOnly);
    nft.asset_type = "video/mp4".to_string();
    let img = get_image_for_nft(&nft).unwrap();
    assert_eq!(
        img,
        "https://cdn.helius-rpc.com/cdn-cgi/image/quality=75/https://img.example/cover.png"
    );
    nft.asset_type = "image/png".to_string();
    let img = get_image_for_nft(&nft).unwrap();
    assert_eq!(
        img,
        "https://cdn.helius-rpc.com/cdn-cgi/image/quality=75/https://img.example/a.png"
    );
}

#[test]
fn nft_descriptor_carries_artist_credit() {
    let nft = sample_nft(NftSaleState::Listed { list_price_lamports: 1_000_000_000 });
    let r = nft_descriptor("chain:1", &nft, 10_000, "An original.", "alice");
    assert_eq!(r.title, "Genesis");
    assert_eq!(r.description, "An original.\n\nnft by alice");
    assert!(!r.disabled);
    assert_eq!(r.links.actions.len(), 1);
    assert_eq!(r.links.actions[0].label, "Buy now for \u{25ce}1.00 (~$100.00)");
}

#[test]
fn degraded_rate_shows_zero_token_price() {
    let product = sample_product(FulfillmentType::User);
    let r = merch_item_descriptor("chain:1", "artist", 7, &product, 0, 1_000);
    assert_eq!(r.links.actions[0].label, "Buy for \u{25ce}0.00 | $35.00");
}
