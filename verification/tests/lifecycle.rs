use fixed_price_auction::{AuthGate, FixedPriceAuctionContract, Identity, Item, ItemStatus, MarketError};

fn party(name: &str) -> Identity {
    Identity::new(name.to_string())
}

fn signed_by(name: &str) -> AuthGate {
    AuthGate::signed_by(party(name))
}

fn market_with_one_listing() -> FixedPriceAuctionContract {
    let mut market = FixedPriceAuctionContract::new();
    let id = market.list_item_at(&signed_by("seller"), party("seller"), 40, b"chair".to_vec(), 100, 10);
    assert_eq!(id, Ok(1));
    market
}

fn listed(id: u64) -> Item {
    Item {
        id,
        seller: party("seller"),
        price: 40,
        description: b"chair".to_vec(),
        status: ItemStatus::Listed,
        buyer: None,
        list_time: 10,
        expiry_time: 110,
    }
}

#[test]
fn ids_count_up_from_one_without_gaps() {
    let mut market = FixedPriceAuctionContract::new();
    assert_eq!(market.item_counter(), 0);
    for expected in 1..=50u64 {
        let name = if expected % 2 == 0 { "even" } else { "odd" };
        let id = market.list_item_at(&signed_by(name), party(name), 7, b"thing".to_vec(), 5, expected);
        assert_eq!(id, Ok(expected));
        assert_eq!(market.item_counter(), expected);
        assert_eq!(market.view_item(expected).unwrap().id, expected);
    }
    assert_eq!(market.view_item(51), Err(MarketError::NotFound));
    assert_eq!(market.view_item(0), Err(MarketError::NotFound));
}

#[test]
fn failed_operations_do_not_use_up_ids() {
    let mut market = market_with_one_listing();
    assert_eq!(
        market.list_item_at(&signed_by("seller"), party("seller"), 0, b"x".to_vec(), 5, 10),
        Err(MarketError::InvalidPrice)
    );
    assert_eq!(
        market.buy_item_at(&signed_by("buyer"), 9, party("buyer"), 10),
        Err(MarketError::NotFound)
    );
    assert_eq!(market.unlist_item(&signed_by("seller"), 1, party("seller")), Ok(true));
    assert_eq!(
        market.list_item_at(&signed_by("seller"), party("seller"), 3, b"y".to_vec(), 5, 10),
        Ok(2)
    );
}

#[test]
fn nonpositive_price_is_refused_and_counter_stays() {
    let mut market = market_with_one_listing();
    for price in [0i128, -1, -100, i128::MIN] {
        assert_eq!(
            market.list_item_at(&signed_by("seller"), party("seller"), price, b"x".to_vec(), 5, 10),
            Err(MarketError::InvalidPrice)
        );
        assert_eq!(market.item_counter(), 1);
        assert_eq!(market.view_item(2), Err(MarketError::NotFound));
        assert_eq!(market.view_item(1), Ok(listed(1)));
    }
    assert_eq!(
        market.list_item_at(&signed_by("seller"), party("seller"), 1, b"x".to_vec(), 5, 10),
        Ok(2)
    );
}

#[test]
fn unauthorized_listing_is_refused_before_the_price_is_looked_at() {
    let mut market = FixedPriceAuctionContract::new();
    assert_eq!(
        market.list_item_at(&AuthGate::none(), party("seller"), 40, b"chair".to_vec(), 100, 10),
        Err(MarketError::Unauthorized)
    );
    assert_eq!(
        market.list_item_at(&AuthGate::none(), party("seller"), 0, b"chair".to_vec(), 100, 10),
        Err(MarketError::Unauthorized)
    );
    assert_eq!(market.item_counter(), 0);
    assert_eq!(market.view_item(1), Err(MarketError::NotFound));
}

#[test]
fn listing_round_trip() {
    let mut market = FixedPriceAuctionContract::new();
    let id = market
        .list_item_at(&signed_by("GSELLER"), party("GSELLER"), 12345, b"a green bicycle".to_vec(), 86400, 1_700_000_000)
        .unwrap();
    assert_eq!(
        market.view_item(id),
        Ok(Item {
            id: 1,
            seller: party("GSELLER"),
            price: 12345,
            description: b"a green bicycle".to_vec(),
            status: ItemStatus::Listed,
            buyer: None,
            list_time: 1_700_000_000,
            expiry_time: 1_700_086_400,
        })
    );
}

#[test]
fn listing_with_zero_duration_expires_at_its_listing_time() {
    let mut market = FixedPriceAuctionContract::new();
    market
        .list_item_at(&signed_by("seller"), party("seller"), 1, Vec::new(), 0, 500)
        .unwrap();
    let item = market.view_item(1).unwrap();
    assert_eq!(item.list_time, 500);
    assert_eq!(item.expiry_time, 500);
    assert_eq!(market.buy_item_at(&signed_by("buyer"), 1, party("buyer"), 500), Ok(true));
}

#[test]
fn purchase_at_the_expiry_time_succeeds() {
    let mut market = market_with_one_listing();
    assert_eq!(market.buy_item_at(&signed_by("buyer"), 1, party("buyer"), 110), Ok(true));
    let item = market.view_item(1).unwrap();
    assert_eq!(
        item,
        Item {
            status: ItemStatus::Sold,
            buyer: Some(party("buyer")),
            ..listed(1)
        }
    );
}

#[test]
fn purchase_one_second_late_is_refused_and_unlists() {
    let mut market = market_with_one_listing();
    assert_eq!(
        market.buy_item_at(&signed_by("buyer"), 1, party("buyer"), 111),
        Err(MarketError::Expired)
    );
    assert_eq!(
        market.view_item(1),
        Ok(Item {
            status: ItemStatus::Unlisted,
            ..listed(1)
        })
    );
    assert_eq!(
        market.buy_item_at(&signed_by("buyer"), 1, party("buyer"), 111),
        Err(MarketError::NotAvailable)
    );
    assert_eq!(
        market.buy_item_at(&signed_by("buyer"), 1, party("buyer"), 50),
        Err(MarketError::NotAvailable)
    );
}

#[test]
fn late_purchase_by_the_seller_is_expired_not_self_trade() {
    let mut market = market_with_one_listing();
    assert_eq!(
        market.buy_item_at(&signed_by("seller"), 1, party("seller"), 111),
        Err(MarketError::Expired)
    );
    assert_eq!(market.view_item(1).unwrap().status, ItemStatus::Unlisted);
}

#[test]
fn seller_cannot_buy_own_item() {
    let mut market = market_with_one_listing();
    assert_eq!(
        market.buy_item_at(&signed_by("seller"), 1, party("seller"), 50),
        Err(MarketError::SelfTrade)
    );
    assert_eq!(market.view_item(1), Ok(listed(1)));
    assert_eq!(market.buy_item_at(&signed_by("buyer"), 1, party("buyer"), 50), Ok(true));
}

#[test]
fn sold_or_unlisted_item_is_not_available_and_stays_as_it_is() {
    let mut market = market_with_one_listing();
    market
        .list_item_at(&signed_by("seller"), party("seller"), 40, b"chair".to_vec(), 100, 10)
        .unwrap();
    assert_eq!(market.buy_item_at(&signed_by("buyer"), 1, party("buyer"), 50), Ok(true));
    assert_eq!(market.unlist_item(&signed_by("seller"), 2, party("seller")), Ok(true));
    let sold = market.view_item(1).unwrap();
    let unlisted = market.view_item(2).unwrap();
    for now in [0u64, 50, 110, 111, u64::MAX] {
        for who in ["buyer", "seller", "other"] {
            assert_eq!(
                market.buy_item_at(&signed_by(who), 1, party(who), now),
                Err(MarketError::NotAvailable)
            );
            assert_eq!(
                market.buy_item_at(&signed_by(who), 2, party(who), now),
                Err(MarketError::NotAvailable)
            );
        }
    }
    assert_eq!(market.view_item(1).unwrap(), sold);
    assert_eq!(market.view_item(2).unwrap(), unlisted);
    assert_eq!(
        market.unlist_item(&signed_by("seller"), 1, party("seller")),
        Err(MarketError::NotAvailable)
    );
    assert_eq!(
        market.unlist_item(&signed_by("seller"), 2, party("seller")),
        Err(MarketError::NotAvailable)
    );
    assert_eq!(market.view_item(1).unwrap(), sold);
    assert_eq!(market.view_item(2).unwrap(), unlisted);
}

#[test]
fn only_the_seller_unlists() {
    let mut market = market_with_one_listing();
    assert_eq!(
        market.unlist_item(&signed_by("other"), 1, party("other")),
        Err(MarketError::NotOwner)
    );
    assert_eq!(
        market.unlist_item(&signed_by("Seller"), 1, party("Seller")),
        Err(MarketError::NotOwner)
    );
    assert_eq!(market.view_item(1), Ok(listed(1)));
    assert_eq!(market.unlist_item(&signed_by("seller"), 1, party("seller")), Ok(true));
    assert_eq!(
        market.unlist_item(&signed_by("other"), 1, party("other")),
        Err(MarketError::NotOwner)
    );
    assert_eq!(
        market.view_item(1),
        Ok(Item {
            status: ItemStatus::Unlisted,
            ..listed(1)
        })
    );
}

#[test]
fn unauthorized_purchase_and_withdrawal_change_nothing() {
    let mut market = market_with_one_listing();
    assert_eq!(
        market.buy_item_at(&AuthGate::none(), 1, party("buyer"), 50),
        Err(MarketError::Unauthorized)
    );
    assert_eq!(
        market.buy_item_at(&AuthGate::none(), 1, party("buyer"), 500),
        Err(MarketError::Unauthorized)
    );
    assert_eq!(
        market.buy_item_at(&AuthGate::none(), 7, party("buyer"), 50),
        Err(MarketError::Unauthorized)
    );
    assert_eq!(
        market.unlist_item(&AuthGate::none(), 1, party("seller")),
        Err(MarketError::Unauthorized)
    );
    assert_eq!(
        market.unlist_item(&AuthGate::none(), 7, party("seller")),
        Err(MarketError::Unauthorized)
    );
    assert_eq!(market.view_item(1), Ok(listed(1)));
}

#[test]
fn missing_item_is_not_found() {
    let mut market = market_with_one_listing();
    for id in [0u64, 2, 3, u64::MAX] {
        assert_eq!(
            market.buy_item_at(&signed_by("buyer"), id, party("buyer"), 50),
            Err(MarketError::NotFound)
        );
        assert_eq!(
            market.unlist_item(&signed_by("seller"), id, party("seller")),
            Err(MarketError::NotFound)
        );
        assert_eq!(market.view_item(id), Err(MarketError::NotFound));
    }
    assert_eq!(market.view_item(1), Ok(listed(1)));
}

#[test]
fn expired_listing_can_still_be_withdrawn() {
    let mut market = market_with_one_listing();
    assert_eq!(market.unlist_item(&signed_by("seller"), 1, party("seller")), Ok(true));
    assert_eq!(market.view_item(1).unwrap().status, ItemStatus::Unlisted);
}

#[test]
fn stored_items_are_put_back_when_valid() {
    let mut market = FixedPriceAuctionContract::with_counter(3);
    assert_eq!(market.item_counter(), 3);
    assert_eq!(market.view_item(2), Err(MarketError::NotFound));
    assert!(market.put_item(listed(2)));
    assert_eq!(market.view_item(2), Ok(listed(2)));
    let sold = Item {
        status: ItemStatus::Sold,
        buyer: Some(party("buyer")),
        ..listed(3)
    };
    assert!(market.put_item(sold));
    assert_eq!(market.view_item(3).unwrap().buyer, Some(party("buyer")));
    assert_eq!(market.item_counter(), 3);
    assert_eq!(
        market.list_item_at(&signed_by("seller"), party("seller"), 1, b"x".to_vec(), 1, 1),
        Ok(4)
    );
    assert_eq!(market.buy_item_at(&signed_by("buyer"), 2, party("buyer"), 110), Ok(true));
}

#[test]
fn invalid_items_are_not_put_back() {
    let mut market = FixedPriceAuctionContract::with_counter(3);
    let rejects = [
        listed(0),
        listed(4),
        Item { price: 0, ..listed(1) },
        Item { price: -5, ..listed(1) },
        Item { expiry_time: 9, ..listed(1) },
        Item { status: ItemStatus::Sold, ..listed(1) },
        Item { buyer: Some(party("buyer")), ..listed(1) },
        Item { status: ItemStatus::Unlisted, buyer: Some(party("buyer")), ..listed(1) },
        Item { status: ItemStatus::Sold, buyer: Some(party("seller")), ..listed(1) },
    ];
    for item in rejects {
        assert!(!market.put_item(item));
    }
    assert_eq!(market.view_item(0), Err(MarketError::NotFound));
    assert_eq!(market.view_item(1), Err(MarketError::NotFound));
    assert_eq!(market.view_item(4), Err(MarketError::NotFound));
    assert_eq!(market.item_counter(), 3);
}

#[test]
fn identities_are_compared_by_key() {
    let a = party("GABC");
    assert!(a.same_as(&party("GABC")));
    assert!(!a.same_as(&party("GABD")));
    assert!(!a.same_as(&party("")));
    assert!(a.clone().same_as(&a));
    assert_eq!(a.clone(), a);
}

#[test]
fn viewed_item_is_a_copy() {
    let market = market_with_one_listing();
    let mut copy = market.view_item(1).unwrap();
    copy.status = ItemStatus::Sold;
    copy.price = 1;
    assert_eq!(market.view_item(1), Ok(listed(1)));
    assert_eq!(listed(1).clone(), listed(1));
}

#[test]
fn gate_lets_through_only_its_signers() {
    let none = AuthGate::none();
    assert!(!none.permits(&party("seller")));
    assert_eq!(none.require(&party("seller")), Err(MarketError::Unauthorized));
    let one = signed_by("seller");
    assert!(one.permits(&party("seller")));
    assert!(!one.permits(&party("buyer")));
    assert_eq!(one.require(&party("seller")), Ok(()));
    assert_eq!(one.require(&party("buyer")), Err(MarketError::Unauthorized));
    let mut two = signed_by("seller");
    two.allow(party("buyer"));
    assert!(two.permits(&party("seller")));
    assert!(two.permits(&party("buyer")));
    assert!(!two.permits(&party("other")));
}

#[test]
fn authorization_by_someone_else_does_not_count() {
    let mut market = market_with_one_listing();
    assert_eq!(
        market.list_item_at(&signed_by("mallory"), party("seller"), 40, b"x".to_vec(), 5, 10),
        Err(MarketError::Unauthorized)
    );
    assert_eq!(
        market.buy_item_at(&signed_by("seller"), 1, party("buyer"), 50),
        Err(MarketError::Unauthorized)
    );
    assert_eq!(
        market.unlist_item(&signed_by("buyer"), 1, party("seller")),
        Err(MarketError::Unauthorized)
    );
    assert_eq!(
        market.unlist_item(&signed_by("mallory"), 1, party("mallory")),
        Err(MarketError::NotOwner)
    );
    assert_eq!(market.item_counter(), 1);
    assert_eq!(market.view_item(1), Ok(listed(1)));
    let mut both = signed_by("seller");
    both.allow(party("buyer"));
    assert_eq!(market.buy_item_at(&both, 1, party("buyer"), 50), Ok(true));
}

#[test]
fn checked_listing_tests_that_it_fits() {
    let mut market = FixedPriceAuctionContract::new();
    assert_eq!(
        market.list_item_checked_at(&signed_by("seller"), party("seller"), 40, b"chair".to_vec(), 100, 10),
        Some(Ok(1))
    );
    assert_eq!(market.view_item(1), Ok(listed(1)));
    assert_eq!(
        market.list_item_checked_at(&signed_by("seller"), party("seller"), 40, b"chair".to_vec(), 1, u64::MAX),
        None
    );
    assert_eq!(
        market.list_item_checked_at(&signed_by("seller"), party("seller"), 40, b"chair".to_vec(), u64::MAX, 1),
        None
    );
    assert_eq!(market.item_counter(), 1);
    assert_eq!(market.view_item(2), Err(MarketError::NotFound));
    assert_eq!(
        market.list_item_checked_at(&signed_by("seller"), party("seller"), 0, b"chair".to_vec(), 1, u64::MAX),
        Some(Err(MarketError::InvalidPrice))
    );
    assert_eq!(
        market.list_item_checked_at(&AuthGate::none(), party("seller"), 40, b"chair".to_vec(), 1, u64::MAX),
        Some(Err(MarketError::Unauthorized))
    );
    assert_eq!(
        market.list_item_checked_at(&signed_by("seller"), party("seller"), 40, b"chair".to_vec(), 0, u64::MAX),
        Some(Ok(2))
    );
    let last = market.view_item(2).unwrap();
    assert_eq!((last.list_time, last.expiry_time), (u64::MAX, u64::MAX));

    let mut full = FixedPriceAuctionContract::with_counter(u64::MAX);
    assert_eq!(
        full.list_item_checked_at(&signed_by("seller"), party("seller"), 40, b"chair".to_vec(), 1, 1),
        None
    );
    assert_eq!(full.item_counter(), u64::MAX);
}

#[test]
fn counter_counts_the_listings_that_succeeded() {
    let mut market = FixedPriceAuctionContract::new();
    let mut made: u64 = 0;
    for round in 0..40u64 {
        let now = round * 10;
        let price = if round % 4 == 3 { 0 } else { 5 };
        let gate = if round % 5 == 4 { AuthGate::none() } else { signed_by("seller") };
        let listed = market.list_item_checked_at(&gate, party("seller"), price, b"thing".to_vec(), 15, now);
        if let Some(Ok(id)) = listed {
            made += 1;
            assert_eq!(id, made);
        }
        let _ = market.buy_item_at(&signed_by("buyer"), round / 2, party("buyer"), now);
        let _ = market.unlist_item(&signed_by("seller"), round / 3 + 1, party("seller"));
        let _ = market.buy_item_at(&signed_by("seller"), round, party("seller"), now + 100);
        assert_eq!(market.item_counter(), made);
        for id in 1..=made {
            assert_eq!(market.view_item(id).unwrap().id, id);
        }
        assert_eq!(market.view_item(made + 1), Err(MarketError::NotFound));
    }
    assert_eq!(made, 24);
}
