//! What holds of the marketplace across its operations, each proved from the
//! transition functions of [`crate::market`].

use crate::market::{
    buy_result, buy_state, empty_state, list_result, list_state, listing_fits, state_valid,
    unlist_result, unlist_state, view_result, MarketState,
};
use crate::types::{listed_item, ItemStatus, ItemView, MarketError};
use vstd::prelude::*;

verus! {

/// The inputs of one authorized listing and the time at which it is made.
pub struct ListingRequest {
    pub seller: Seq<char>,
    pub price: i128,
    pub description: Seq<u8>,
    pub duration_seconds: u64,
    pub now: u64,
}

/// The state after the authorized listings `requests`, made in order from
/// the state `s`.
pub open spec fn after_listings(s: MarketState, requests: Seq<ListingRequest>) -> MarketState
    decreases requests.len(),
{
    if requests.len() == 0 {
        s
    } else {
        let r = requests.last();
        list_state(
            after_listings(s, requests.drop_last()),
            true,
            r.seller,
            r.price,
            r.description,
            r.duration_seconds,
            r.now,
        )
    }
}

/// Ids count up from 1 without gaps: after any number of valid listings on
/// an empty marketplace the counter equals that number, so the next valid
/// listing returns that number plus one.
pub proof fn law_listing_ids_count_up(requests: Seq<ListingRequest>, price: i128)
    requires
        forall|i: int| 0 <= i < requests.len() ==> (#[trigger] requests[i]).price > 0,
        requests.len() < u64::MAX,
        price > 0,
    ensures
        after_listings(empty_state(), requests).counter == requests.len(),
        list_result(after_listings(empty_state(), requests), true, price) == Ok::<
            u64,
            MarketError,
        >((requests.len() + 1) as u64),
    decreases requests.len(),
{
    if requests.len() > 0 {
        let earlier = requests.drop_last();
        assert forall|i: int| 0 <= i < earlier.len() implies (#[trigger] earlier[i]).price > 0 by {
            assert(earlier[i] == requests[i]);
        }
        law_listing_ids_count_up(earlier, requests.last().price);
    }
}

/// A valid listing returns the id after the counter and moves the counter
/// to it; in a valid state nothing was stored under that id before, and
/// every item stored before stays as it was.
pub proof fn law_listing_takes_next_id(
    s: MarketState,
    seller: Seq<char>,
    price: i128,
    description: Seq<u8>,
    duration_seconds: u64,
    now: u64,
)
    requires
        state_valid(s),
        price > 0,
        s.counter < u64::MAX,
    ensures
        list_result(s, true, price) == Ok::<u64, MarketError>((s.counter + 1) as u64),
        list_state(s, true, seller, price, description, duration_seconds, now).counter
            == s.counter + 1,
        !s.records.contains_key((s.counter + 1) as u64),
        forall|id: u64| #[trigger]
            s.records.contains_key(id) ==> list_state(
                s,
                true,
                seller,
                price,
                description,
                duration_seconds,
                now,
            ).records[id] == s.records[id],
{
}

/// An authorized listing whose price is not positive is refused as
/// `InvalidPrice`, and neither the counter nor any item changes.
pub proof fn law_bad_price_is_refused(
    s: MarketState,
    seller: Seq<char>,
    price: i128,
    description: Seq<u8>,
    duration_seconds: u64,
    now: u64,
)
    requires
        price <= 0,
    ensures
        list_result(s, true, price) == Err::<u64, MarketError>(MarketError::InvalidPrice),
        list_state(s, true, seller, price, description, duration_seconds, now) == s,
{
}

/// An authorized purchase of an item that is sold or unlisted is refused as
/// `NotAvailable`, whoever buys and whenever, and nothing changes.
pub proof fn law_terminal_item_cannot_be_bought(
    s: MarketState,
    item_id: u64,
    buyer: Seq<char>,
    now: u64,
)
    requires
        s.records.contains_key(item_id),
        s.records[item_id].status != ItemStatus::Listed,
    ensures
        buy_result(s, true, item_id, buyer, now) == Err::<bool, MarketError>(
            MarketError::NotAvailable,
        ),
        buy_state(s, true, item_id, buyer, now) == s,
{
}

/// An authorized purchase by the seller of a listed item that has not run
/// out is refused as `SelfTrade`, and nothing changes.
pub proof fn law_seller_cannot_buy_own_item(s: MarketState, item_id: u64, now: u64)
    requires
        s.records.contains_key(item_id),
        s.records[item_id].status == ItemStatus::Listed,
        now <= s.records[item_id].expiry_time,
    ensures
        buy_result(s, true, item_id, s.records[item_id].seller, now) == Err::<bool, MarketError>(
            MarketError::SelfTrade,
        ),
        buy_state(s, true, item_id, s.records[item_id].seller, now) == s,
{
}

/// An authorized purchase of a listed item after its expiry is refused as
/// `Expired`, and an inspection afterwards shows the item unlisted and
/// otherwise as it was.
pub proof fn law_late_purchase_unlists(s: MarketState, item_id: u64, buyer: Seq<char>, now: u64)
    requires
        s.records.contains_key(item_id),
        s.records[item_id].status == ItemStatus::Listed,
        now > s.records[item_id].expiry_time,
    ensures
        buy_result(s, true, item_id, buyer, now) == Err::<bool, MarketError>(
            MarketError::Expired,
        ),
        view_result(buy_state(s, true, item_id, buyer, now), item_id) == Ok::<
            ItemView,
            MarketError,
        >(ItemView { status: ItemStatus::Unlisted, ..s.records[item_id] }),
        buy_result(buy_state(s, true, item_id, buyer, now), true, item_id, buyer, now) == Err::<
            bool,
            MarketError,
        >(MarketError::NotAvailable),
{
}

/// An authorized withdrawal by anyone but the seller is refused as
/// `NotOwner`, and nothing changes.
pub proof fn law_only_seller_unlists(s: MarketState, item_id: u64, caller: Seq<char>)
    requires
        s.records.contains_key(item_id),
        caller != s.records[item_id].seller,
    ensures
        unlist_result(s, true, item_id, caller) == Err::<bool, MarketError>(
            MarketError::NotOwner,
        ),
        unlist_state(s, true, item_id, caller) == s,
{
}

/// An item that was just listed is shown as listed, without a buyer, with
/// the inputs of the listing, the time of the listing and the expiry
/// computed from it.
pub proof fn law_listing_round_trip(
    s: MarketState,
    seller: Seq<char>,
    price: i128,
    description: Seq<u8>,
    duration_seconds: u64,
    now: u64,
)
    requires
        price > 0,
        listing_fits(s, duration_seconds, now),
    ensures
        view_result(
            list_state(s, true, seller, price, description, duration_seconds, now),
            (s.counter + 1) as u64,
        ) == Ok::<ItemView, MarketError>(
            listed_item(
                (s.counter + 1) as u64,
                seller,
                price,
                description,
                now,
                (now + duration_seconds) as u64,
            ),
        ),
{
}

/// No operation leads out of `Sold` or `Unlisted`: a purchase or a
/// withdrawal, authorized or not, leaves such an item as it is.
pub proof fn law_terminal_states_stay(
    s: MarketState,
    item_id: u64,
    authorized: bool,
    target: u64,
    actor: Seq<char>,
    now: u64,
)
    requires
        s.records.contains_key(item_id),
        s.records[item_id].status != ItemStatus::Listed,
    ensures
        buy_state(s, authorized, target, actor, now).records.contains_key(item_id),
        buy_state(s, authorized, target, actor, now).records[item_id] == s.records[item_id],
        unlist_state(s, authorized, target, actor).records.contains_key(item_id),
        unlist_state(s, authorized, target, actor).records[item_id] == s.records[item_id],
{
}

/// Whether two items agree in what a listing fixes for good: the id, the
/// seller, the price, the description, the listing time and the expiry.
pub open spec fn same_terms(a: ItemView, b: ItemView) -> bool {
    &&& a.id == b.id
    &&& a.seller == b.seller
    &&& a.price == b.price
    &&& a.description == b.description
    &&& a.list_time == b.list_time
    &&& a.expiry_time == b.expiry_time
}

/// Whether `after` is a state that an item in the state `before` may come
/// to: the same status and buyer, or from `Listed` to `Unlisted` without a
/// buyer, or from `Listed` to `Sold` with one.
pub open spec fn moved_forward(before: ItemView, after: ItemView) -> bool {
    ||| after.status == before.status && after.buyer == before.buyer
    ||| before.status == ItemStatus::Listed && after.status == ItemStatus::Unlisted
        && after.buyer is None
    ||| before.status == ItemStatus::Listed && after.status == ItemStatus::Sold
        && after.buyer is Some
}

/// Items are never deleted, keep their terms, and only move forward: after
/// any operation on a valid state, a stored item is still stored, with the
/// terms of its listing, and its status has stayed or has left `Listed`.
pub proof fn law_items_only_move_forward(
    s: MarketState,
    item_id: u64,
    authorized: bool,
    target: u64,
    actor: Seq<char>,
    price: i128,
    description: Seq<u8>,
    duration_seconds: u64,
    now: u64,
)
    requires
        state_valid(s),
        s.records.contains_key(item_id),
        list_result(s, authorized, price) is Ok ==> listing_fits(s, duration_seconds, now),
    ensures
        ({
            let next = list_state(s, authorized, actor, price, description, duration_seconds, now);
            &&& next.records.contains_key(item_id)
            &&& next.records[item_id] == s.records[item_id]
        }),
        ({
            let next = buy_state(s, authorized, target, actor, now);
            &&& next.records.contains_key(item_id)
            &&& same_terms(s.records[item_id], next.records[item_id])
            &&& moved_forward(s.records[item_id], next.records[item_id])
        }),
        ({
            let next = unlist_state(s, authorized, target, actor);
            &&& next.records.contains_key(item_id)
            &&& same_terms(s.records[item_id], next.records[item_id])
            &&& moved_forward(s.records[item_id], next.records[item_id])
        }),
{
}

/// Every operation keeps a valid state valid, whether it succeeds or not.
pub proof fn law_operations_keep_validity(
    s: MarketState,
    authorized: bool,
    item_id: u64,
    actor: Seq<char>,
    price: i128,
    description: Seq<u8>,
    duration_seconds: u64,
    now: u64,
)
    requires
        state_valid(s),
        list_result(s, authorized, price) is Ok ==> listing_fits(s, duration_seconds, now),
    ensures
        state_valid(list_state(s, authorized, actor, price, description, duration_seconds, now)),
        state_valid(buy_state(s, authorized, item_id, actor, now)),
        state_valid(unlist_state(s, authorized, item_id, actor)),
{
}

/// One state-changing call on the marketplace, with the time at which it is
/// made where the time plays a part. Inspections change nothing and are left
/// out.
pub enum Operation {
    List {
        authorized: bool,
        seller: Seq<char>,
        price: i128,
        description: Seq<u8>,
        duration_seconds: u64,
        now: u64,
    },
    Buy { authorized: bool, item_id: u64, buyer: Seq<char>, now: u64 },
    Unlist { authorized: bool, item_id: u64, seller: Seq<char> },
}

/// Whether `op` is a listing that succeeds in the state `s`: it is
/// authorized, its price is positive, and it fits the machine's integers.
pub open spec fn lists_successfully(s: MarketState, op: Operation) -> bool {
    match op {
        Operation::List { authorized, price, duration_seconds, now, .. } => {
            list_result(s, authorized, price) is Ok && listing_fits(s, duration_seconds, now)
        },
        _ => false,
    }
}

/// The state after `op` in the state `s`. A listing that does not fit
/// changes nothing.
pub open spec fn after_operation(s: MarketState, op: Operation) -> MarketState {
    match op {
        Operation::List { authorized, seller, price, description, duration_seconds, now } => {
            if lists_successfully(s, op) {
                list_state(s, authorized, seller, price, description, duration_seconds, now)
            } else {
                s
            }
        },
        Operation::Buy { authorized, item_id, buyer, now } => buy_state(
            s,
            authorized,
            item_id,
            buyer,
            now,
        ),
        Operation::Unlist { authorized, item_id, seller } => unlist_state(
            s,
            authorized,
            item_id,
            seller,
        ),
    }
}

/// The state after the operations `ops`, made in order from the state `s`.
pub open spec fn after_operations(s: MarketState, ops: Seq<Operation>) -> MarketState
    decreases ops.len(),
{
    if ops.len() == 0 {
        s
    } else {
        after_operation(after_operations(s, ops.drop_last()), ops.last())
    }
}

/// How many of the operations `ops`, made in order from the state `s`, are
/// listings that succeed.
pub open spec fn listings_made(s: MarketState, ops: Seq<Operation>) -> nat
    decreases ops.len(),
{
    if ops.len() == 0 {
        0
    } else {
        let earlier = listings_made(s, ops.drop_last());
        if lists_successfully(after_operations(s, ops.drop_last()), ops.last()) {
            earlier + 1
        } else {
            earlier
        }
    }
}

/// Whether every id from 1 to the counter is stored.
pub open spec fn ids_all_stored(s: MarketState) -> bool {
    forall|id: u64| 1 <= id <= s.counter ==> #[trigger] s.records.contains_key(id)
}

/// Whatever operations are made on an empty marketplace, in whatever order
/// and whether they succeed or fail: the counter equals the number of
/// listings that succeeded, every id from 1 to the counter is still stored,
/// and the state is valid. So the ids that were handed out are exactly 1 to
/// the counter, none is missing and none is used twice.
pub proof fn law_counter_counts_listings(ops: Seq<Operation>)
    ensures
        after_operations(empty_state(), ops).counter == listings_made(empty_state(), ops),
        ids_all_stored(after_operations(empty_state(), ops)),
        state_valid(after_operations(empty_state(), ops)),
    decreases ops.len(),
{
    if ops.len() > 0 {
        law_counter_counts_listings(ops.drop_last());
        let before = after_operations(empty_state(), ops.drop_last());
        let after = after_operations(empty_state(), ops);
        assert(after == after_operation(before, ops.last()));
        assert forall|id: u64| 1 <= id <= after.counter implies #[trigger] after.records.contains_key(
            id,
        ) by {
            if id <= before.counter {
                assert(before.records.contains_key(id));
            }
        }
    }
}

} // verus!
