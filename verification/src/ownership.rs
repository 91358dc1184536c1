//! Rows that belong to a user. Announcements, events, items for sale and
//! lost items are edited, deleted and marked only by the user who added
//! them, and bids and claims record who made them: each statement of these
//! is filtered, or stamped, with the address of the validated token.
use vstd::prelude::*;
use crate::auth::user_reply;
use crate::claims::{Claims, ClaimValue, ClaimView, claims_view, email_claim};
use crate::decimal::{decimal, u64_to_decimal};
use crate::http::{HttpError, http_error, FORBIDDEN};

verus! {

/// The filter of a statement on one row of its author: the row's id is
/// parameter `first` and the author's address parameter `first + 1`.
pub open spec fn owner_filter_text(first: nat) -> Seq<char> {
    "WHERE id = $"@ + decimal(first as int) + " AND added_by_email = $"@ + decimal(first + 1int)
}

/// Builds the filter that limits a statement to the row `$first` of the
/// author `$first + 1`.
pub fn owner_filter(first: u64) -> (r: String)
    requires
        first < u64::MAX,
    ensures
        r@ == owner_filter_text(first as nat),
{
    let mut r = String::from_str("WHERE id = $");
    r.append(u64_to_decimal(first).as_str());
    r.append(" AND added_by_email = $");
    r.append(u64_to_decimal(first + 1).as_str());
    r
}

/// The row a user acts on: its id, and the user as its owner.
pub struct OwnedTarget {
    pub id: i32,
    pub owner: String,
}

/// Identifies the user and aims at their row `id`: the owner is the
/// user's address, the `email` claim of the validated token, to be bound
/// where the statement's owner filter expects it. A user who cannot be
/// identified is refused as `user_reply` says.
pub fn owned_target(id: i32, validated: Option<Claims>) -> (r: Result<OwnedTarget, HttpError>)
    ensures
        match (r, user_reply(claims_view(validated))) {
            (Ok(t), Ok(e)) => t.id == id && t.owner@ == e,
            (Err(x), Err(y)) => x@ == y,
            _ => false,
        },
{
    match validated {
        None => Err(http_error(FORBIDDEN, "Couldn't authenticate user")),
        Some(c) => match c.email() {
            Some(ClaimValue::Text(e)) => Ok(OwnedTarget { id, owner: e }),
            _ => Err(http_error(FORBIDDEN, "Invalid user")),
        },
    }
}

/// Who made a bid or a claim, and when (seconds since the Unix epoch).
pub struct Stamp {
    pub by: String,
    pub at: i64,
}

/// Stamps a bid or a claim with the identified user and the server's time
/// `now`, whatever the request said of either. A user who cannot be
/// identified is refused as `user_reply` says.
pub fn stamp(validated: Option<Claims>, now: i64) -> (r: Result<Stamp, HttpError>)
    ensures
        match (r, user_reply(claims_view(validated))) {
            (Ok(s), Ok(e)) => s.by@ == e && s.at == now,
            (Err(x), Err(y)) => x@ == y,
            _ => false,
        },
{
    match validated {
        None => Err(http_error(FORBIDDEN, "Couldn't authenticate user")),
        Some(c) => match c.email() {
            Some(ClaimValue::Text(e)) => Ok(Stamp { by: e, at: now }),
            _ => Err(http_error(FORBIDDEN, "Invalid user")),
        },
    }
}

/// An owner-scoped statement touches only rows of the identified user: its
/// owner parameter is the address of the token, and nobody without a text
/// email claim gets a statement at all.
pub proof fn lemma_owner_is_token_address(
    validated: Option<Map<Seq<char>, ClaimView>>,
    e: Seq<char>,
)
    ensures
        user_reply(validated) == Ok::<Seq<char>, (u16, Seq<char>)>(e) ==> email_claim(
            validated.unwrap(),
        ) == Some(ClaimView::Text(e)),
{
}

} // verus!
