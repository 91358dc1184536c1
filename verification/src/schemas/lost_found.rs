//! Lost items, and the claims of those who found them.
use vstd::prelude::*;

verus! {

/// Where a lost item stands.
#[derive(Clone, Copy, Debug, PartialEq, Eq, Structural)]
pub enum LostFoundStatus {
    Lost,
    Found,
    ClaimedToBeFound,
}

/// The name under which a status is stored and sent, in snake case.
pub open spec fn lost_found_status_name(s: LostFoundStatus) -> Seq<char> {
    match s {
        LostFoundStatus::Lost => "lost"@,
        LostFoundStatus::Found => "found"@,
        LostFoundStatus::ClaimedToBeFound => "claimed_to_be_found"@,
    }
}

/// Whether an item in status `s` takes claims of having been found: while
/// it is lost, and again after someone claimed it, but not once its owner
/// marked it found.
pub open spec fn takes_claims(s: LostFoundStatus) -> bool {
    s is Lost || s is ClaimedToBeFound
}

impl Default for LostFoundStatus {
    /// A new item is lost.
    fn default() -> (r: Self)
        ensures
            r == LostFoundStatus::Lost,
    {
        LostFoundStatus::Lost
    }
}

impl LostFoundStatus {
    /// The stored name of this status.
    pub fn db_name(&self) -> (r: &'static str)
        ensures
            r@ == lost_found_status_name(*self),
    {
        match self {
            LostFoundStatus::Lost => "lost",
            LostFoundStatus::Found => "found",
            LostFoundStatus::ClaimedToBeFound => "claimed_to_be_found",
        }
    }

    /// Whether an item in this status takes claims.
    pub fn accepts_claims(&self) -> (r: bool)
        ensures
            r == takes_claims(*self),
    {
        match self {
            LostFoundStatus::Lost => true,
            LostFoundStatus::Found => false,
            LostFoundStatus::ClaimedToBeFound => true,
        }
    }

    /// The status of an item once a claim on it is recorded.
    pub fn after_claim() -> (r: LostFoundStatus)
        ensures
            r == LostFoundStatus::ClaimedToBeFound,
    {
        LostFoundStatus::ClaimedToBeFound
    }

    /// The status of an item that its owner marked found.
    pub fn after_recovery() -> (r: LostFoundStatus)
        ensures
            r == LostFoundStatus::Found,
    {
        LostFoundStatus::Found
    }

    /// The stored names of the statuses in which an item takes claims.
    pub fn claim_status_names() -> (r: Vec<String>)
        ensures
            forall|s: LostFoundStatus|
                takes_claims(s) <==> exists|i: int|
                    0 <= i < r@.len() && #[trigger] r@[i]@ == lost_found_status_name(s),
            forall|i: int|
                #![trigger r@[i]]
                0 <= i < r@.len() ==> exists|s: LostFoundStatus|
                    takes_claims(s) && r@[i]@ == #[trigger] lost_found_status_name(s),
    {
        let mut r: Vec<String> = Vec::new();
        let lost = LostFoundStatus::Lost;
        let found = LostFoundStatus::Found;
        let claimed = LostFoundStatus::ClaimedToBeFound;
        if lost.accepts_claims() {
            r.push(String::from_str(lost.db_name()));
        }
        if found.accepts_claims() {
            r.push(String::from_str(found.db_name()));
        }
        if claimed.accepts_claims() {
            r.push(String::from_str(claimed.db_name()));
        }
        proof {
            lemma_lost_found_names_distinct(lost, found);
            lemma_lost_found_names_distinct(lost, claimed);
            lemma_lost_found_names_distinct(found, claimed);
            assert(r@[0]@ == lost_found_status_name(lost));
            assert(r@[1]@ == lost_found_status_name(claimed));
            assert forall|s: LostFoundStatus|
                (exists|i: int|
                    0 <= i < r@.len() && #[trigger] r@[i]@ == lost_found_status_name(s))
                    implies takes_claims(s) by {
                lemma_lost_found_names_distinct(s, found);
            }
        }
        r
    }
}

/// Distinct statuses are stored under distinct names.
pub proof fn lemma_lost_found_names_distinct(s: LostFoundStatus, t: LostFoundStatus)
    ensures
        lost_found_status_name(s) == lost_found_status_name(t) ==> s == t,
{
    reveal_strlit("lost");
    reveal_strlit("found");
    reveal_strlit("claimed_to_be_found");
    if s != t {
        assert(lost_found_status_name(s).len() != lost_found_status_name(t).len());
    }
}

/// A new item takes claims, and still does after a claim, so that several
/// finders may claim it; once marked found it takes none.
pub proof fn lemma_claims_until_found(s: LostFoundStatus)
    ensures
        takes_claims(LostFoundStatus::Lost),
        takes_claims(s) ==> takes_claims(LostFoundStatus::ClaimedToBeFound),
        !takes_claims(LostFoundStatus::Found),
{
}

/// What a user sends to report a lost item: its name, its description and
/// its pictures in base64.
pub struct LostFoundRequest {
    pub item_name: String,
    pub description: String,
    pub base64_images: Vec<String>,
}

} // verus!
