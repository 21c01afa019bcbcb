//! The marketplace: its state, the four operations on it, and what each of
//! them does to that state.

use crate::auth::AuthGate;
use crate::clock::ledger_timestamp;
use crate::types::{item_valid, listed_item, Identity, Item, ItemStatus, ItemView, MarketError};
use std::collections::HashMap;
use vstd::prelude::*;

verus! {

broadcast use vstd::std_specs::hash::group_hash_axioms;

/// The mathematical state of a marketplace: the last id that was handed out,
/// and the stored items by id.
pub struct MarketState {
    pub counter: u64,
    pub records: Map<u64, ItemView>,
}

/// The state before anything was listed.
pub open spec fn empty_state() -> MarketState {
    MarketState { counter: 0, records: Map::empty() }
}

/// Every stored item is valid, is stored under its own id, and its id was
/// handed out by the counter.
pub open spec fn state_valid(s: MarketState) -> bool {
    forall|id: u64| #[trigger]
        s.records.contains_key(id) ==> {
            &&& item_valid(s.records[id])
            &&& s.records[id].id == id
            &&& id <= s.counter
        }
}

/// Whether the next id and the expiry of a listing made at `now` fit the
/// machine's integers.
pub open spec fn listing_fits(s: MarketState, duration_seconds: u64, now: u64) -> bool {
    s.counter < u64::MAX && now + duration_seconds <= u64::MAX
}

/// What a listing returns: the next id, unless the seller did not authorize
/// it or the price is not positive.
pub open spec fn list_result(s: MarketState, authorized: bool, price: i128) -> Result<
    u64,
    MarketError,
> {
    if !authorized {
        Err(MarketError::Unauthorized)
    } else if price <= 0 {
        Err(MarketError::InvalidPrice)
    } else {
        Ok((s.counter + 1) as u64)
    }
}

/// The state after a listing: on success the new item is stored under the
/// next id and the counter moves to it; on failure nothing changes.
pub open spec fn list_state(
    s: MarketState,
    authorized: bool,
    seller: Seq<char>,
    price: i128,
    description: Seq<u8>,
    duration_seconds: u64,
    now: u64,
) -> MarketState {
    match list_result(s, authorized, price) {
        Ok(id) => MarketState {
            counter: id,
            records: s.records.insert(
                id,
                listed_item(id, seller, price, description, now, (now + duration_seconds) as u64),
            ),
        },
        Err(_) => s,
    }
}

/// What a purchase at `now` returns. The guards are tried in this order:
/// authorization, existence, availability, expiry, self-trade.
pub open spec fn buy_result(
    s: MarketState,
    authorized: bool,
    item_id: u64,
    buyer: Seq<char>,
    now: u64,
) -> Result<bool, MarketError> {
    if !authorized {
        Err(MarketError::Unauthorized)
    } else if !s.records.contains_key(item_id) {
        Err(MarketError::NotFound)
    } else if s.records[item_id].status != ItemStatus::Listed {
        Err(MarketError::NotAvailable)
    } else if now > s.records[item_id].expiry_time {
        Err(MarketError::Expired)
    } else if buyer == s.records[item_id].seller {
        Err(MarketError::SelfTrade)
    } else {
        Ok(true)
    }
}

/// The state after a purchase at `now`: on success the item is sold to the
/// buyer; a purchase that comes after the expiry withdraws the item; every
/// other failure changes nothing.
pub open spec fn buy_state(
    s: MarketState,
    authorized: bool,
    item_id: u64,
    buyer: Seq<char>,
    now: u64,
) -> MarketState {
    match buy_result(s, authorized, item_id, buyer, now) {
        Ok(_) => MarketState {
            counter: s.counter,
            records: s.records.insert(
                item_id,
                ItemView { status: ItemStatus::Sold, buyer: Some(buyer), ..s.records[item_id] },
            ),
        },
        Err(MarketError::Expired) => MarketState {
            counter: s.counter,
            records: s.records.insert(
                item_id,
                ItemView { status: ItemStatus::Unlisted, ..s.records[item_id] },
            ),
        },
        Err(_) => s,
    }
}

/// What a withdrawal returns. The guards are tried in this order:
/// authorization, existence, ownership, availability.
pub open spec fn unlist_result(
    s: MarketState,
    authorized: bool,
    item_id: u64,
    seller: Seq<char>,
) -> Result<bool, MarketError> {
    if !authorized {
        Err(MarketError::Unauthorized)
    } else if !s.records.contains_key(item_id) {
        Err(MarketError::NotFound)
    } else if s.records[item_id].seller != seller {
        Err(MarketError::NotOwner)
    } else if s.records[item_id].status != ItemStatus::Listed {
        Err(MarketError::NotAvailable)
    } else {
        Ok(true)
    }
}

/// The state after a withdrawal: on success the item is unlisted; on failure
/// nothing changes.
pub open spec fn unlist_state(
    s: MarketState,
    authorized: bool,
    item_id: u64,
    seller: Seq<char>,
) -> MarketState {
    match unlist_result(s, authorized, item_id, seller) {
        Ok(_) => MarketState {
            counter: s.counter,
            records: s.records.insert(
                item_id,
                ItemView { status: ItemStatus::Unlisted, ..s.records[item_id] },
            ),
        },
        Err(_) => s,
    }
}

/// What an inspection returns: the stored item, if there is one.
pub open spec fn view_result(s: MarketState, item_id: u64) -> Result<ItemView, MarketError> {
    if s.records.contains_key(item_id) {
        Ok(s.records[item_id])
    } else {
        Err(MarketError::NotFound)
    }
}

/// A listing made while the ledger clock read `now`, as seen by a caller who
/// did not read the clock: where the listing would succeed but does not fit
/// the machine's integers, nothing is returned and nothing changes.
pub open spec fn listing_observed(
    before: MarketState,
    after: MarketState,
    outcome: Option<Result<u64, MarketError>>,
    authorized: bool,
    seller: Seq<char>,
    price: i128,
    description: Seq<u8>,
    duration_seconds: u64,
    now: u64,
) -> bool {
    if list_result(before, authorized, price) is Ok && !listing_fits(
        before,
        duration_seconds,
        now,
    ) {
        outcome is None && after == before
    } else {
        &&& outcome == Some(list_result(before, authorized, price))
        &&& after == list_state(
            before,
            authorized,
            seller,
            price,
            description,
            duration_seconds,
            now,
        )
    }
}

/// A purchase made while the ledger clock read `now`.
pub open spec fn purchase_observed(
    before: MarketState,
    after: MarketState,
    outcome: Result<bool, MarketError>,
    authorized: bool,
    item_id: u64,
    buyer: Seq<char>,
    now: u64,
) -> bool {
    &&& outcome == buy_result(before, authorized, item_id, buyer, now)
    &&& after == buy_state(before, authorized, item_id, buyer, now)
}

/// A fixed-price marketplace. It holds the id counter and the items, and
/// every operation on it is one indivisible step.
pub struct FixedPriceAuctionContract {
    counter: u64,
    items: HashMap<u64, Item>,
}

impl View for FixedPriceAuctionContract {
    type V = MarketState;

    closed spec fn view(&self) -> MarketState {
        MarketState {
            counter: self.counter,
            records: Map::new(
                |id: u64| self.items@.contains_key(id),
                |id: u64| self.items@[id]@,
            ),
        }
    }
}

impl FixedPriceAuctionContract {
    /// The invariant of the marketplace.
    pub open spec fn wf(&self) -> bool {
        state_valid(self@)
    }

    /// A marketplace in which nothing was listed yet.
    pub fn new() -> (market: Self)
        ensures
            market.wf(),
            market@ == empty_state(),
    {
        let market = FixedPriceAuctionContract { counter: 0, items: HashMap::new() };
        assert(market@.records =~= Map::<u64, ItemView>::empty());
        market
    }

    /// A marketplace without items whose counter stands at `counter`: the
    /// starting point for putting back items that were stored elsewhere.
    pub fn with_counter(counter: u64) -> (market: Self)
        ensures
            market.wf(),
            market@ == (MarketState { counter, records: Map::empty() }),
    {
        let market = FixedPriceAuctionContract { counter, items: HashMap::new() };
        assert(market@.records =~= Map::<u64, ItemView>::empty());
        market
    }

    /// The last id that was handed out, 0 before the first listing.
    pub fn item_counter(&self) -> (counter: u64)
        ensures
            counter == self@.counter,
    {
        self.counter
    }

    /// Stores `item` under its id, replacing what was there, if the item is
    /// valid and its id was handed out; otherwise changes nothing.
    pub fn put_item(&mut self, item: Item) -> (stored: bool)
        requires
            old(self).wf(),
        ensures
            final(self).wf(),
            stored == (item_valid(item@) && item.id <= old(self)@.counter),
            stored ==> final(self)@ == (MarketState {
                counter: old(self)@.counter,
                records: old(self)@.records.insert(item.id, item@),
            }),
            !stored ==> final(self)@ == old(self)@,
    {
        let buyer_fits = match &item.buyer {
            Some(b) => item.status == ItemStatus::Sold && !b.same_as(&item.seller),
            None => item.status != ItemStatus::Sold,
        };
        let valid = item.id >= 1 && item.price > 0 && item.expiry_time >= item.list_time
            && buyer_fits;
        if !valid || item.id > self.counter {
            return false;
        }
        let ghost stored_item = item@;
        let id: u64 = item.id;
        self.items.insert(id, item);
        assert(self@.records =~= old(self)@.records.insert(id, stored_item));
        true
    }

    /// Lists a new item for `seller` at the time `now`, if `gate` lets the
    /// seller through.
    pub fn list_item_at(
        &mut self,
        gate: &AuthGate,
        seller: Identity,
        price: i128,
        description: Vec<u8>,
        duration_seconds: u64,
        now: u64,
    ) -> (outcome: Result<u64, MarketError>)
        requires
            old(self).wf(),
            list_result(old(self)@, gate@.contains(seller@), price) is Ok ==> listing_fits(
                old(self)@,
                duration_seconds,
                now,
            ),
        ensures
            final(self).wf(),
            outcome == list_result(old(self)@, gate@.contains(seller@), price),
            final(self)@ == list_state(
                old(self)@,
                gate@.contains(seller@),
                seller@,
                price,
                description@,
                duration_seconds,
                now,
            ),
    {
        if !gate.permits(&seller) {
            return Err(MarketError::Unauthorized);
        }
        if price <= 0 {
            return Err(MarketError::InvalidPrice);
        }
        let item_id: u64 = self.counter + 1;
        let expiry_time: u64 = now + duration_seconds;
        let item = Item {
            id: item_id,
            seller,
            price,
            description,
            status: ItemStatus::Listed,
            buyer: None,
            list_time: now,
            expiry_time,
        };
        let ghost listed = item@;
        self.items.insert(item_id, item);
        self.counter = item_id;
        assert(self@.records =~= old(self)@.records.insert(item_id, listed));
        Ok(item_id)
    }

    /// Lists a new item for `seller` at the time `now`, if `gate` lets the
    /// seller through, after testing that the listing fits: where it would
    /// succeed but the next id or the expiry does not fit the machine's
    /// integers, returns `None` and changes nothing.
    pub fn list_item_checked_at(
        &mut self,
        gate: &AuthGate,
        seller: Identity,
        price: i128,
        description: Vec<u8>,
        duration_seconds: u64,
        now: u64,
    ) -> (outcome: Option<Result<u64, MarketError>>)
        requires
            old(self).wf(),
        ensures
            final(self).wf(),
            listing_observed(
                old(self)@,
                final(self)@,
                outcome,
                gate@.contains(seller@),
                seller@,
                price,
                description@,
                duration_seconds,
                now,
            ),
    {
        if gate.permits(&seller) && price > 0 && (self.counter == u64::MAX || duration_seconds
            > u64::MAX - now) {
            return None;
        }
        Some(self.list_item_at(gate, seller, price, description, duration_seconds, now))
    }

    /// Lists a new item for `seller` at the time that the ledger clock of
    /// `env` reads, if `gate` lets the seller through.
    /// Returns `None`, and changes nothing, where the listing would succeed
    /// but the next id or the expiry does not fit the machine's integers.
    pub fn list_item(
        &mut self,
        env: &soroban_sdk::Env,
        gate: &AuthGate,
        seller: Identity,
        price: i128,
        description: Vec<u8>,
        duration_seconds: u64,
    ) -> (outcome: Option<Result<u64, MarketError>>)
        requires
            old(self).wf(),
        ensures
            final(self).wf(),
            exists|now: u64|
                listing_observed(
                    old(self)@,
                    final(self)@,
                    outcome,
                    gate@.contains(seller@),
                    seller@,
                    price,
                    description@,
                    duration_seconds,
                    now,
                ),
    {
        let now: u64 = ledger_timestamp(env);
        self.list_item_checked_at(gate, seller, price, description, duration_seconds, now)
    }

    /// Buys the item `item_id` for `buyer` at the time `now`, if `gate` lets
    /// the buyer through.
    pub fn buy_item_at(&mut self, gate: &AuthGate, item_id: u64, buyer: Identity, now: u64) -> (outcome:
        Result<bool, MarketError>)
        requires
            old(self).wf(),
        ensures
            final(self).wf(),
            outcome == buy_result(old(self)@, gate@.contains(buyer@), item_id, buyer@, now),
            final(self)@ == buy_state(old(self)@, gate@.contains(buyer@), item_id, buyer@, now),
    {
        if !gate.permits(&buyer) {
            return Err(MarketError::Unauthorized);
        }
        let mut item = match self.items.get(&item_id) {
            Some(found) => found.clone(),
            None => {
                return Err(MarketError::NotFound);
            },
        };
        if item.status != ItemStatus::Listed {
            return Err(MarketError::NotAvailable);
        }
        if now > item.expiry_time {
            item.status = ItemStatus::Unlisted;
            let ghost reaped = item@;
            self.items.insert(item_id, item);
            assert(self@.records =~= old(self)@.records.insert(item_id, reaped));
            return Err(MarketError::Expired);
        }
        if buyer.same_as(&item.seller) {
            return Err(MarketError::SelfTrade);
        }
        item.status = ItemStatus::Sold;
        item.buyer = Some(buyer);
        let ghost sold = item@;
        self.items.insert(item_id, item);
        assert(self@.records =~= old(self)@.records.insert(item_id, sold));
        Ok(true)
    }

    /// Buys the item `item_id` for `buyer` at the time that the ledger clock
    /// of `env` reads, if `gate` lets the buyer through.
    pub fn buy_item(
        &mut self,
        env: &soroban_sdk::Env,
        gate: &AuthGate,
        item_id: u64,
        buyer: Identity,
    ) -> (outcome: Result<bool, MarketError>)
        requires
            old(self).wf(),
        ensures
            final(self).wf(),
            exists|now: u64|
                purchase_observed(
                    old(self)@,
                    final(self)@,
                    outcome,
                    gate@.contains(buyer@),
                    item_id,
                    buyer@,
                    now,
                ),
    {
        let now: u64 = ledger_timestamp(env);
        let ghost authorized = gate@.contains(buyer@);
        let ghost before = self@;
        let ghost buyer_key = buyer@;
        let outcome = self.buy_item_at(gate, item_id, buyer, now);
        assert(purchase_observed(before, self@, outcome, authorized, item_id, buyer_key, now));
        outcome
    }

    /// Withdraws the item `item_id` on behalf of `seller`, if `gate` lets the
    /// seller through. The expiry plays no part: a listing that ran out can
    /// still be withdrawn.
    pub fn unlist_item(&mut self, gate: &AuthGate, item_id: u64, seller: Identity) -> (outcome:
        Result<bool, MarketError>)
        requires
            old(self).wf(),
        ensures
            final(self).wf(),
            outcome == unlist_result(old(self)@, gate@.contains(seller@), item_id, seller@),
            final(self)@ == unlist_state(old(self)@, gate@.contains(seller@), item_id, seller@),
    {
        if !gate.permits(&seller) {
            return Err(MarketError::Unauthorized);
        }
        let mut item = match self.items.get(&item_id) {
            Some(found) => found.clone(),
            None => {
                return Err(MarketError::NotFound);
            },
        };
        if !item.seller.same_as(&seller) {
            return Err(MarketError::NotOwner);
        }
        if item.status != ItemStatus::Listed {
            return Err(MarketError::NotAvailable);
        }
        item.status = ItemStatus::Unlisted;
        let ghost withdrawn = item@;
        self.items.insert(item_id, item);
        assert(self@.records =~= old(self)@.records.insert(item_id, withdrawn));
        Ok(true)
    }

    /// Returns a copy of the item `item_id`. Nothing changes.
    pub fn view_item(&self, item_id: u64) -> (outcome: Result<Item, MarketError>)
        requires
            self.wf(),
        ensures
            match outcome {
                Ok(item) => view_result(self@, item_id) == Ok::<ItemView, MarketError>(item@),
                Err(e) => view_result(self@, item_id) == Err::<ItemView, MarketError>(e),
            },
    {
        match self.items.get(&item_id) {
            Some(found) => Ok(found.clone()),
            None => Err(MarketError::NotFound),
        }
    }
}

} // verus!
