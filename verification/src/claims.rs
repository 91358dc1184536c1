//! The claims of a validated identity token, as a small map from claim
//! names to values. Only text values are told apart from the rest, since
//! the endpoints only ever read a claim as text.
use vstd::prelude::*;

verus! {

/// The value of one claim: text, or anything else (a number, a list...).
pub enum ClaimValue {
    Text(String),
    Other,
}

/// The mathematical value of a claim.
pub enum ClaimView {
    Text(Seq<char>),
    Other,
}

impl View for ClaimValue {
    type V = ClaimView;

    open spec fn view(&self) -> ClaimView {
        match self {
            ClaimValue::Text(s) => ClaimView::Text(s@),
            ClaimValue::Other => ClaimView::Other,
        }
    }
}

impl ClaimValue {
    /// A copy of this value.
    pub fn duplicate(&self) -> (r: ClaimValue)
        ensures
            r@ == self@,
    {
        match self {
            ClaimValue::Text(s) => ClaimValue::Text(s.clone()),
            ClaimValue::Other => ClaimValue::Other,
        }
    }
}

/// The entries of a claim list, by their values.
pub open spec fn entries_view(s: Seq<(String, ClaimValue)>) -> Seq<(Seq<char>, ClaimView)> {
    s.map_values(|e: (String, ClaimValue)| (e.0@, e.1@))
}

/// The map that a list of entries stands for: a later entry for a name
/// overrides an earlier one.
pub open spec fn entries_map(s: Seq<(Seq<char>, ClaimView)>) -> Map<Seq<char>, ClaimView>
    decreases s.len(),
{
    if s.len() == 0 {
        Map::empty()
    } else {
        entries_map(s.drop_last()).insert(s.last().0, s.last().1)
    }
}

/// In a list of entries, the last entry named `k` gives the value of `k`,
/// and a name with no entry is absent from the map.
pub proof fn lemma_entries_map_lookup(s: Seq<(Seq<char>, ClaimView)>, k: Seq<char>, i: int)
    requires
        -1 <= i < s.len(),
        i >= 0 ==> s[i].0 == k,
        forall|j: int| i < j < s.len() ==> s[j].0 != k,
    ensures
        i >= 0 ==> entries_map(s).contains_key(k) && entries_map(s)[k] == s[i].1,
        i < 0 ==> !entries_map(s).contains_key(k),
    decreases s.len(),
{
    if s.len() > 0 {
        if i == s.len() - 1 {
        } else {
            assert forall|j: int| i < j < s.drop_last().len() implies s.drop_last()[j].0 != k by {
                assert(s.drop_last()[j] == s[j]);
            }
            if i >= 0 {
                assert(s.drop_last()[i] == s[i]);
            }
            lemma_entries_map_lookup(s.drop_last(), k, i);
        }
    }
}

/// The claims of a token: a map from claim name to claim value.
pub struct Claims {
    entries: Vec<(String, ClaimValue)>,
}

impl View for Claims {
    type V = Map<Seq<char>, ClaimView>;

    closed spec fn view(&self) -> Map<Seq<char>, ClaimView> {
        entries_map(entries_view(self.entries@))
    }
}

impl Claims {
    /// No claims.
    pub fn new() -> (c: Claims)
        ensures
            c@ == Map::<Seq<char>, ClaimView>::empty(),
    {
        Claims { entries: Vec::new() }
    }

    /// Sets the claim `name` to `value`, replacing any earlier value.
    pub fn insert(&mut self, name: String, value: ClaimValue)
        ensures
            final(self)@ == old(self)@.insert(name@, value@),
    {
        let ghost before = entries_view(self.entries@);
        self.entries.push((name, value));
        assert(entries_view(self.entries@).drop_last() =~= before);
    }

    /// The value of the claim `name`, if the token has one.
    pub fn get(&self, name: &str) -> (r: Option<ClaimValue>)
        ensures
            match r {
                Some(v) => self@.contains_key(name@) && self@[name@] == v@,
                None => !self@.contains_key(name@),
            },
    {
        let key = String::from_str(name);
        let ghost s = entries_view(self.entries@);
        let mut i = self.entries.len();
        while i > 0
            invariant
                i <= self.entries.len(),
                s == entries_view(self.entries@),
                key@ == name@,
                forall|j: int| i <= j < s.len() ==> s[j].0 != name@,
            decreases i,
        {
            i = i - 1;
            if self.entries[i].0 == key {
                proof {
                    lemma_entries_map_lookup(s, name@, i as int);
                }
                return Some(self.entries[i].1.duplicate());
            }
        }
        proof {
            lemma_entries_map_lookup(s, name@, -1);
        }
        None
    }
}

/// The `email` claim of a claim map, if there is one.
pub open spec fn email_claim(c: Map<Seq<char>, ClaimView>) -> Option<ClaimView> {
    if c.contains_key("email"@) {
        Some(c["email"@])
    } else {
        None
    }
}

impl Claims {
    /// The `email` claim, if the token has one.
    pub fn email(&self) -> (r: Option<ClaimValue>)
        ensures
            match r {
                Some(v) => email_claim(self@) == Some(v@),
                None => email_claim(self@) is None,
            },
    {
        self.get("email")
    }
}

/// A claim map, when there is one.
pub open spec fn claims_view(c: Option<Claims>) -> Option<Map<Seq<char>, ClaimView>> {
    match c {
        Some(c) => Some(c@),
        None => None,
    }
}

} // verus!
