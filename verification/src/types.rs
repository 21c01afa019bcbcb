//! The data of a listing: who sells it, at what price, and where it stands in
//! its life.

use vstd::prelude::*;

verus! {

/// Where a listing stands. `Listed` is the only state that an operation
/// leaves; `Sold` and `Unlisted` are terminal.
#[derive(Clone, Copy, Debug, PartialEq, Eq, Structural)]
pub enum ItemStatus {
    Listed,
    Sold,
    Unlisted,
}

/// Why an operation was refused.
#[derive(Clone, Copy, Debug, PartialEq, Eq, Structural)]
pub enum MarketError {
    /// The acting identity did not authorize the operation.
    Unauthorized,
    /// The asking price is zero or negative.
    InvalidPrice,
    /// No item is stored under the given id.
    NotFound,
    /// The item is sold or withdrawn.
    NotAvailable,
    /// The listing ran out before the purchase.
    Expired,
    /// The buyer is the seller.
    SelfTrade,
    /// The identity that withdraws is not the seller.
    NotOwner,
}

/// A party to a trade, known by the text form of its address. Two identities
/// are the same party exactly when their keys hold the same characters.
#[derive(Debug, PartialEq, Eq)]
pub struct Identity {
    pub key: String,
}

impl View for Identity {
    type V = Seq<char>;

    open spec fn view(&self) -> Seq<char> {
        self.key@
    }
}

impl Clone for Identity {
    fn clone(&self) -> (copy: Self)
        ensures
            copy == *self,
    {
        Identity { key: self.key.clone() }
    }
}

impl Identity {
    /// The identity with the given key.
    pub fn new(key: String) -> (id: Self)
        ensures
            id@ == key@,
            id.key == key,
    {
        Identity { key }
    }

    /// Whether both identities are the same party.
    pub fn same_as(&self, other: &Identity) -> (same: bool)
        ensures
            same == (self@ == other@),
    {
        self.key == other.key
    }
}

/// The mathematical value of an [`Item`].
pub struct ItemView {
    pub id: u64,
    pub seller: Seq<char>,
    pub price: i128,
    pub description: Seq<u8>,
    pub status: ItemStatus,
    pub buyer: Option<Seq<char>>,
    pub list_time: u64,
    pub expiry_time: u64,
}

/// A listing and its current state.
#[derive(Debug, PartialEq, Eq)]
pub struct Item {
    pub id: u64,
    pub seller: Identity,
    pub price: i128,
    /// Free-form text, kept as the bytes that the seller gave.
    pub description: Vec<u8>,
    pub status: ItemStatus,
    pub buyer: Option<Identity>,
    pub list_time: u64,
    pub expiry_time: u64,
}

impl View for Item {
    type V = ItemView;

    open spec fn view(&self) -> ItemView {
        ItemView {
            id: self.id,
            seller: self.seller@,
            price: self.price,
            description: self.description@,
            status: self.status,
            buyer: match self.buyer {
                Some(b) => Some(b@),
                None => None,
            },
            list_time: self.list_time,
            expiry_time: self.expiry_time,
        }
    }
}

impl Clone for Item {
    fn clone(&self) -> (copy: Self)
        ensures
            copy@ == self@,
    {
        let buyer = match &self.buyer {
            Some(b) => Some(b.clone()),
            None => None,
        };
        Item {
            id: self.id,
            seller: self.seller.clone(),
            price: self.price,
            description: self.description.clone(),
            status: self.status,
            buyer,
            list_time: self.list_time,
            expiry_time: self.expiry_time,
        }
    }
}

/// What holds of every stored item: a positive id and price, an expiry that
/// is not before the listing, and a buyer exactly when the item is sold, who
/// is then not the seller.
pub open spec fn item_valid(v: ItemView) -> bool {
    &&& v.id >= 1
    &&& v.price > 0
    &&& v.expiry_time >= v.list_time
    &&& (v.status == ItemStatus::Sold) == (v.buyer is Some)
    &&& v.buyer != Some(v.seller)
}

/// The item that a listing creates.
pub open spec fn listed_item(
    id: u64,
    seller: Seq<char>,
    price: i128,
    description: Seq<u8>,
    list_time: u64,
    expiry_time: u64,
) -> ItemView {
    ItemView {
        id,
        seller,
        price,
        description,
        status: ItemStatus::Listed,
        buyer: None,
        list_time,
        expiry_time,
    }
}

} // verus!
