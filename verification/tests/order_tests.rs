use blink_engine::blinks::classify_nft_action;
use blink_engine::blinks::completed_order_descriptor;
use blink_engine::blinks::marketplace_base_url;
use blink_engine::blinks::merch_post_response;
use blink_engine::blinks::print_post_response;
use blink_engine::blinks::NftBlinkAction;
use blink_engine::coordinator::prepare_merch_purchase;
use blink_engine::dto::NextAction;
use blink_engine::nft::build_print_nft;
use blink_engine::nft::parent_edition_mint;
use blink_engine::nft::DasPrintSupply;
use blink_engine::nft::NftSaleState;
use blink_engine::nft::SingleNftResponse;
use blink_engine::order::apply_confirmation;
use blink_engine::order::check_not_already_paid;
use blink_engine::order::evaluate_payment_check;
use blink_engine::order::require_payment_reference;
use blink_engine::order::ConfirmError;
use blink_engine::order::MerchOrder;
use blink_engine::order::OrderStatus;
use blink_engine::order::PaymentCheck;
use blink_engine::product::FulfillmentType;
use blink_engine::product::MerchProductWithCurrentSupply;
use blink_engine::product::PurchaseRejection;
use blink_engine::split::PaymentSplit;

fn sample_product() -> MerchProductWithCurrentSupply {
    MerchProductWithCurrentSupply {
        id: 7,
        name: "Tour Shirt".to_string(),
        description: "A shirt.".to_string(),
        selling_price: 2000,
        foster_amount: 300,
        supply: None,
        current_supply: 0,
        sale_start_at: None,
        sale_end_at: None,
        fulfillment_type: FulfillmentType::User,
        user_id: 11,
        addon_mockup_urls: vec![],
        addon_raw_urls: vec![],
        product_images: vec![],
        print_technique: None,
    }
}

fn sample_order() -> MerchOrder {
    MerchOrder {
        id: 42,
        user_id: 11,
        status: OrderStatus::Created,
        total_amount_usd: 3500,
        total_amount_token: 357_000_000,
        payment_splits: PaymentSplit { entries: vec![("seller".to_string(), 1700)] },
        external_order_id: None,
        transaction_id: None,
        shipping_address_raw: "1 Main St".to_string(),
    }
}

// Confirming twice: the first call succeeds and stores the reference;
// the second is rejected as already paid and the stored reference
// remains the first one.
#[test]
fn order_confirmed_at_most_once() {
    let mut order = sample_order();
    assert!(apply_confirmation(&mut order, "sig-1", 900).is_ok());
    assert_eq!(order.transaction_id.as_deref(), Some("sig-1"));
    assert_eq!(order.external_order_id, Some(900));
    assert!(matches!(order.status, OrderStatus::Fulfilled));

    let second = apply_confirmation(&mut order, "sig-2", 901);
    assert!(matches!(second, Err(ConfirmError::AlreadyPaid)));
    assert_eq!(order.transaction_id.as_deref(), Some("sig-1"));
    assert_eq!(order.external_order_id, Some(900));
}

#[test]
fn confirmation_guard_checks_reference() {
    let mut order = sample_order();
    assert!(check_not_already_paid(&order).is_ok());
    order.transaction_id = Some("sig-1".to_string());
    assert!(matches!(check_not_already_paid(&order), Err(ConfirmError::AlreadyPaid)));
}

#[test]
fn payment_check_outcomes() {
    assert!(evaluate_payment_check(PaymentCheck::Confirmed).is_ok());
    assert!(matches!(
        evaluate_payment_check(PaymentCheck::NotFoundYet),
        Err(ConfirmError::PaymentNotFound)
    ));
    assert!(matches!(
        evaluate_payment_check(PaymentCheck::Mismatch),
        Err(ConfirmError::PaymentMismatch)
    ));
}

#[test]
fn confirmation_requires_reference() {
    assert!(matches!(require_payment_reference(&None), Err(ConfirmError::MissingSignature)));
    let sig = Some("sig".to_string());
    assert_eq!(require_payment_reference(&sig).unwrap(), "sig");
}

#[test]
fn prepared_purchase_amounts_and_split() {
    let product = sample_product();
    let prep = prepare_merch_purchase(
        &product,
        1_000,
        10_000,
        11,
        "seller-wallet",
        "platform-wallet",
        "1 Main St",
    )
    .unwrap();
    assert_eq!(prep.amounts.seller_cents, 1700);
    assert_eq!(prep.amounts.foster_cents, 1800);
    assert_eq!(prep.amounts.total_cents, 3500);
    assert_eq!(
        prep.split_cents.entries,
        vec![("seller-wallet".to_string(), 1700), ("platform-wallet".to_string(), 1800)]
    );
    assert_eq!(
        prep.split_lamports.entries,
        vec![
            ("seller-wallet".to_string(), 173_400_000),
            ("platform-wallet".to_string(), 183_600_000)
        ]
    );
    assert_eq!(prep.total_lamports, 357_000_000);
    assert_eq!(prep.required_balance_lamports, 357_020_000);
    assert!(matches!(prep.new_order.status, OrderStatus::Created));
    assert_eq!(prep.new_order.total_amount_usd, 3500);
    assert_eq!(prep.new_order.total_amount_token, 357_000_000);
    assert!(prep.new_order.transaction_id.is_none());
}

#[test]
fn prepared_purchase_rejects_sold_out() {
    let mut product = sample_product();
    product.supply = Some(1);
    product.current_supply = 1;
    let r = prepare_merch_purchase(&product, 1_000, 10_000, 11, "a", "b", "addr");
    assert!(matches!(r, Err(PurchaseRejection::SoldOut)));
}

#[test]
fn marketplace_urls() {
    assert_eq!(marketplace_base_url("mainnet"), "https://fostermarketplace.app");
    assert_eq!(marketplace_base_url("devnet"), "https://devnet.fostermarketplace.app");
}

#[test]
fn merch_post_response_links_to_checkout() {
    let r = merch_post_response(
        "chain:1",
        "TX".to_string(),
        42,
        "Tour Shirt",
        "a@b.c",
        Some("M"),
    );
    assert_eq!(r.transaction, "TX");
    assert_eq!(r.message.as_deref(), Some("Placing Order #42: Tour Shirt | M"));
    let NextAction::Post { href } = r.links.unwrap().next;
    assert_eq!(href, "/blinks/merch/42/checkout?email=a@b.c&size=M");
}

#[test]
fn merch_post_response_without_size() {
    let r = merch_post_response("chain:1", "TX".to_string(), 42, "Tour Shirt", "a@b.c", None);
    assert_eq!(r.message.as_deref(), Some("Placing Order #42: Tour Shirt"));
    let NextAction::Post { href } = r.links.unwrap().next;
    assert_eq!(href, "/blinks/merch/42/checkout?email=a@b.c");
}

#[test]
fn completed_descriptor_names_order() {
    let r = completed_order_descriptor(
        "chain:1",
        "https://devnet.fostermarketplace.app",
        42,
        String::new(),
    );
    assert_eq!(r.title, "Order #42");
    assert_eq!(
        r.description,
        "Manage your order at https://devnet.fostermarketplace.app/orders/42"
    );
    assert_eq!(r.label, "Order placed successfully!");
    assert!(r.disabled);
    assert!(r.links.actions.is_empty());
}

#[test]
fn nft_action_dispatch() {
    assert!(matches!(classify_nft_action("buy-print"), NftBlinkAction::BuyPrint));
    assert!(matches!(classify_nft_action("buy"), NftBlinkAction::Buy));
    assert!(matches!(classify_nft_action("bid"), NftBlinkAction::Bid));
    assert!(matches!(classify_nft_action("place-offer"), NftBlinkAction::PlaceOffer));
    assert!(matches!(classify_nft_action("steal"), NftBlinkAction::Unknown));
}

#[test]
fn print_post_response_links_to_indexing() {
    let r = print_post_response("chain:1", "TX".to_string(), 3, "mint-addr");
    assert_eq!(r.message.as_deref(), Some("Minting Print Edition #3"));
    let NextAction::Post { href } = r.links.unwrap().next;
    assert_eq!(href, "/blinks/nft/index-print/mint-addr");
}

#[test]
fn print_record_inherits_parent_fields() {
    let parent = SingleNftResponse {
        token_id: "parent-tok".to_string(),
        nft_name: "Genesis".to_string(),
        minter_id: "minter".to_string(),
        asset_type: "image/png".to_string(),
        asset_url: "https://img.example/a.png".to_string(),
        cover_image_url: None,
        collection_id: Some(3),
        categories: vec!["art".to_string()],
        royalties: 500,
        sale_state: NftSaleState::OfferOnly,
    };
    let supply = DasPrintSupply {
        master_edition_mint: Some("parent-tok".to_string()),
        print_max_supply: Some(100),
        edition_number: Some(4),
    };
    assert_eq!(parent_edition_mint(&supply).unwrap(), "parent-tok");
    let record = build_print_nft(&parent, &supply, "buyer", "print-tok");
    assert_eq!(record.owner_id, "buyer");
    assert_eq!(record.minter_id, "buyer");
    assert_eq!(record.token_id, "print-tok");
    assert_eq!(record.parent_nft.as_deref(), Some("parent-tok"));
    assert_eq!(record.nft_name, "Genesis");
    assert_eq!(record.collection_id, Some(3));
    assert_eq!(record.max_supply, Some(100));
    assert_eq!(record.edition, 4);
    assert!(record.minted_on_foster);
    assert_eq!(record.views, 0);

    let no_parent = DasPrintSupply {
        master_edition_mint: None,
        print_max_supply: None,
        edition_number: None,
    };
    assert!(parent_edition_mint(&no_parent).is_err());
}

// Rate-source failure degrades to a zero rate: checkout proceeds with a
// zero-value transaction instead of failing.
#[test]
fn degraded_rate_prepares_zero_value_purchase() {
    let product = sample_product();
    let prep = prepare_merch_purchase(&product, 1_000, 0, 11, "a", "b", "addr").unwrap();
    assert_eq!(prep.amounts.total_cents, 3500);
    assert_eq!(prep.total_lamports, 0);
    assert_eq!(
        prep.split_lamports.entries,
        vec![("a".to_string(), 0), ("b".to_string(), 0)]
    );
    assert_eq!(prep.required_balance_lamports, 20_000);
}
