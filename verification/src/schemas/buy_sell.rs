//! Items offered for sale, and the bids on them.
use vstd::prelude::*;

verus! {

/// Where an item for sale stands.
#[derive(Clone, Copy, Debug, PartialEq, Eq, Structural)]
pub enum BuySellStatus {
    Selling,
    Sold,
}

/// The name under which a status is stored and sent, in snake case.
pub open spec fn buy_sell_status_name(s: BuySellStatus) -> Seq<char> {
    match s {
        BuySellStatus::Selling => "selling"@,
        BuySellStatus::Sold => "sold"@,
    }
}

/// Whether an item in status `s` takes bids: only while it is for sale.
pub open spec fn takes_bids(s: BuySellStatus) -> bool {
    s is Selling
}

impl Default for BuySellStatus {
    /// A new item is for sale.
    fn default() -> (r: Self)
        ensures
            r == BuySellStatus::Selling,
    {
        BuySellStatus::Selling
    }
}

impl BuySellStatus {
    /// The stored name of this status.
    pub fn db_name(&self) -> (r: &'static str)
        ensures
            r@ == buy_sell_status_name(*self),
    {
        match self {
            BuySellStatus::Selling => "selling",
            BuySellStatus::Sold => "sold",
        }
    }

    /// Whether an item in this status takes bids.
    pub fn accepts_bids(&self) -> (r: bool)
        ensures
            r == takes_bids(*self),
    {
        match self {
            BuySellStatus::Selling => true,
            BuySellStatus::Sold => false,
        }
    }

    /// The status of an item that its seller marked sold.
    pub fn after_sale() -> (r: BuySellStatus)
        ensures
            r == BuySellStatus::Sold,
    {
        BuySellStatus::Sold
    }

    /// The stored names of the statuses in which an item takes bids.
    pub fn bid_status_names() -> (r: Vec<String>)
        ensures
            forall|s: BuySellStatus|
                takes_bids(s) <==> exists|i: int|
                    0 <= i < r@.len() && #[trigger] r@[i]@ == buy_sell_status_name(s),
            forall|i: int|
                #![trigger r@[i]]
                0 <= i < r@.len() ==> exists|s: BuySellStatus|
                    takes_bids(s) && r@[i]@ == #[trigger] buy_sell_status_name(s),
    {
        let mut r: Vec<String> = Vec::new();
        let selling = BuySellStatus::Selling;
        let sold = BuySellStatus::Sold;
        if selling.accepts_bids() {
            r.push(String::from_str(selling.db_name()));
        }
        if sold.accepts_bids() {
            r.push(String::from_str(sold.db_name()));
        }
        proof {
            lemma_buy_sell_names_distinct(selling, sold);
            assert(r@[0]@ == buy_sell_status_name(selling));
        }
        r
    }
}

/// Distinct statuses are stored under distinct names.
pub proof fn lemma_buy_sell_names_distinct(s: BuySellStatus, t: BuySellStatus)
    ensures
        buy_sell_status_name(s) == buy_sell_status_name(t) ==> s == t,
{
    reveal_strlit("selling");
    reveal_strlit("sold");
    if s != t {
        assert(buy_sell_status_name(s).len() != buy_sell_status_name(t).len());
    }
}

/// A new item takes bids; a sold item takes none.
pub proof fn lemma_bids_only_while_selling()
    ensures
        takes_bids(BuySellStatus::Selling),
        !takes_bids(BuySellStatus::Sold),
{
}

/// What a user sends to offer an item: its name, its description and its
/// pictures in base64.
pub struct BuySellRequest {
    pub item_name: String,
    pub description: String,
    pub base64_images: Vec<String>,
}

} // verus!
