//! The statements of the boards where users post: announcements, events,
//! items for sale and lost items. A statement that changes or removes a
//! post is limited to the posts of its author by the owner filter, with
//! the author's address at a stated parameter; bids and claims go only to
//! items whose status takes them.
use vstd::prelude::*;
use crate::ownership::{owner_filter, owner_filter_text};
use crate::schemas::admin::{placeholder_list, placeholders};
use crate::decimal::decimal;

verus! {

/// A board where users post.
#[derive(Clone, Copy, Debug, PartialEq, Eq, Structural)]
pub enum Board {
    Announcements,
    Events,
    BuySell,
    LostFound,
}

/// The table of a board.
pub open spec fn table_text(b: Board) -> Seq<char> {
    match b {
        Board::Announcements => "announcements"@,
        Board::Events => "events"@,
        Board::BuySell => "buysellentries"@,
        Board::LostFound => "lostfoundentries"@,
    }
}

/// The columns of a post, as every statement of the board returns them.
pub open spec fn columns_text(b: Board) -> Seq<char> {
    match b {
        Board::Announcements => "id, title, description, added_on_timestamp, added_by_email, img_url"@,
        Board::Events => "id, name, description, poster_url, added_by_email, address, start_datetime"@,
        Board::BuySell => "id, item_name, description, added_on_timestamp, added_by_email, status, bids, img_urls"@,
        Board::LostFound => "id, item_name, description, added_on_timestamp, added_by_email, status, found_claims, img_urls"@,
    }
}

/// What an edit of a post sets, from parameters `$1` on.
pub open spec fn assignments_text(b: Board) -> Seq<char> {
    match b {
        Board::Announcements => "title = $1, description = $2, img_url = COALESCE($3, img_url)"@,
        Board::Events => "name = $1, description = $2, poster_url = COALESCE($3, poster_url), address = $4, start_datetime = $5"@,
        Board::BuySell => "item_name = $1, description = $2, img_urls = $3"@,
        Board::LostFound => "item_name = $1, description = $2, img_urls = $3"@,
    }
}

/// The columns that a new post is given, in the order of its parameters.
pub open spec fn inserted_columns_text(b: Board) -> Seq<char> {
    match b {
        Board::Announcements => "title, description, added_on_timestamp, added_by_email, img_url"@,
        Board::Events => "name, description, poster_url, added_by_email, address, start_datetime"@,
        Board::BuySell => "item_name, description, added_on_timestamp, added_by_email, img_urls"@,
        Board::LostFound => "item_name, description, added_on_timestamp, added_by_email, img_urls"@,
    }
}

/// The column that names a post: the title of an announcement, the name of
/// an event, the name of an item.
pub open spec fn name_column(b: Board) -> Seq<char> {
    match b {
        Board::Announcements => "title"@,
        Board::Events => "name"@,
        Board::BuySell => "item_name"@,
        Board::LostFound => "item_name"@,
    }
}

/// The columns that an edit sets, in the order in which the edit's new
/// values are bound; a column marked `true` keeps its value when the new
/// one is null.
pub open spec fn edit_fields(b: Board) -> Seq<(Seq<char>, bool)> {
    match b {
        Board::Announcements => seq![("title"@, false), ("description"@, false), ("img_url"@, true)],
        Board::Events => seq![
            ("name"@, false),
            ("description"@, false),
            ("poster_url"@, true),
            ("address"@, false),
            ("start_datetime"@, false),
        ],
        Board::BuySell => seq![("item_name"@, false), ("description"@, false), ("img_urls"@, false)],
        Board::LostFound => seq![("item_name"@, false), ("description"@, false), ("img_urls"@, false)],
    }
}

/// The columns of a new post, in the order in which its values are bound.
pub open spec fn insert_fields(b: Board) -> Seq<Seq<char>> {
    match b {
        Board::Announcements => seq![
            "title"@,
            "description"@,
            "added_on_timestamp"@,
            "added_by_email"@,
            "img_url"@,
        ],
        Board::Events => seq![
            "name"@,
            "description"@,
            "poster_url"@,
            "added_by_email"@,
            "address"@,
            "start_datetime"@,
        ],
        Board::BuySell => seq![
            "item_name"@,
            "description"@,
            "added_on_timestamp"@,
            "added_by_email"@,
            "img_urls"@,
        ],
        Board::LostFound => seq![
            "item_name"@,
            "description"@,
            "added_on_timestamp"@,
            "added_by_email"@,
            "img_urls"@,
        ],
    }
}

/// `column = $k`, or `column = COALESCE($k, column)` for a column that keeps
/// its value when the new one is null.
pub open spec fn assignment(column: Seq<char>, keep: bool, k: nat) -> Seq<char> {
    if keep {
        column + " = COALESCE($"@ + decimal(k as int) + ", "@ + column + ")"@
    } else {
        column + " = $"@ + decimal(k as int)
    }
}

/// The assignments of `fields`, separated by commas, the first one from the
/// parameter `$first` and each next one from the next parameter.
pub open spec fn assignment_list(fields: Seq<(Seq<char>, bool)>, first: nat) -> Seq<char>
    decreases fields.len(),
{
    if fields.len() == 0 {
        Seq::empty()
    } else if fields.len() == 1 {
        assignment(fields[0].0, fields[0].1, first)
    } else {
        assignment(fields[0].0, fields[0].1, first) + ", "@ + assignment_list(
            fields.drop_first(),
            first + 1,
        )
    }
}

/// The names of `columns`, separated by commas.
pub open spec fn column_list(columns: Seq<Seq<char>>) -> Seq<char>
    decreases columns.len(),
{
    if columns.len() == 0 {
        Seq::empty()
    } else if columns.len() == 1 {
        columns[0]
    } else {
        columns[0] + ", "@ + column_list(columns.drop_first())
    }
}

/// The parameter of an edit that holds the post's id; the author's address is the next one.
pub open spec fn owner_parameter(b: Board) -> nat {
    match b {
        Board::Announcements => 4,
        Board::Events => 6,
        Board::BuySell => 4,
        Board::LostFound => 4,
    }
}

/// The number of parameters of a new post.
pub open spec fn inserted_count(b: Board) -> nat {
    match b {
        Board::Announcements => 5,
        Board::Events => 6,
        Board::BuySell => 5,
        Board::LostFound => 5,
    }
}

impl Board {
    /// The table of this board.
    pub fn table(&self) -> (r: &'static str)
        ensures
            r@ == table_text(*self),
    {
        match self {
            Board::Announcements => "announcements",
            Board::Events => "events",
            Board::BuySell => "buysellentries",
            Board::LostFound => "lostfoundentries",
        }
    }

    /// The columns of a post.
    pub fn columns(&self) -> (r: &'static str)
        ensures
            r@ == columns_text(*self),
    {
        match self {
            Board::Announcements => "id, title, description, added_on_timestamp, added_by_email, img_url",
            Board::Events => "id, name, description, poster_url, added_by_email, address, start_datetime",
            Board::BuySell => "id, item_name, description, added_on_timestamp, added_by_email, status, bids, img_urls",
            Board::LostFound => "id, item_name, description, added_on_timestamp, added_by_email, status, found_claims, img_urls",
        }
    }

    /// What an edit of a post sets.
    pub fn assignments(&self) -> (r: &'static str)
        ensures
            r@ == assignments_text(*self),
    {
        match self {
            Board::Announcements => "title = $1, description = $2, img_url = COALESCE($3, img_url)",
            Board::Events => "name = $1, description = $2, poster_url = COALESCE($3, poster_url), address = $4, start_datetime = $5",
            Board::BuySell => "item_name = $1, description = $2, img_urls = $3",
            Board::LostFound => "item_name = $1, description = $2, img_urls = $3",
        }
    }

    /// The columns of a new post.
    pub fn inserted_columns(&self) -> (r: &'static str)
        ensures
            r@ == inserted_columns_text(*self),
    {
        match self {
            Board::Announcements => "title, description, added_on_timestamp, added_by_email, img_url",
            Board::Events => "name, description, poster_url, added_by_email, address, start_datetime",
            Board::BuySell => "item_name, description, added_on_timestamp, added_by_email, img_urls",
            Board::LostFound => "item_name, description, added_on_timestamp, added_by_email, img_urls",
        }
    }

    /// The parameter of an edit that holds the post's id.
    pub fn owner_parameter(&self) -> (r: u64)
        ensures
            r == owner_parameter(*self),
    {
        match self {
            Board::Announcements => 4,
            Board::Events => 6,
            Board::BuySell => 4,
            Board::LostFound => 4,
        }
    }

    /// The number of parameters of a new post.
    pub fn inserted_count(&self) -> (r: u64)
        ensures
            r == inserted_count(*self),
    {
        match self {
            Board::Announcements => 5,
            Board::Events => 6,
            Board::BuySell => 5,
            Board::LostFound => 5,
        }
    }
}

/// The statement that reads every post of a board.
pub open spec fn select_all_text(b: Board) -> Seq<char> {
    "SELECT "@ + columns_text(b) + " FROM "@ + table_text(b)
}

/// The statement that reads the post `$1` of a board.
pub open spec fn select_one_text(b: Board) -> Seq<char> {
    select_all_text(b) + " WHERE id = $1"@
}

/// The statement that removes the post `$1` of the author `$2`.
pub open spec fn delete_text(b: Board) -> Seq<char> {
    "DELETE FROM "@ + table_text(b) + " "@ + owner_filter_text(1)
}

/// The statement that edits a post: the new values from `$1`, then the
/// post's id and its author's address at `owner_parameter(b)` and the next.
pub open spec fn edit_text(b: Board) -> Seq<char> {
    "UPDATE "@ + table_text(b) + " SET "@ + assignments_text(b) + " "@ + owner_filter_text(
        owner_parameter(b),
    ) + " RETURNING "@ + columns_text(b)
}

/// The statement that adds a post, its values as `$1, $2, ...`.
pub open spec fn insert_text(b: Board) -> Seq<char> {
    "INSERT INTO "@ + table_text(b) + "("@ + inserted_columns_text(b) + ") VALUES("@ + placeholders(
        inserted_count(b),
    ) + ") RETURNING "@ + columns_text(b)
}

/// The statement that sets the status of the author's item: the item `$1`,
/// the author `$2`, the new status `$3`.
pub open spec fn mark_text(b: Board) -> Seq<char> {
    "UPDATE "@ + table_text(b) + " SET status = $3::item_status "@ + owner_filter_text(1)
        + " RETURNING "@ + columns_text(b)
}

/// The statement that adds the bid `$1` to the item `$2` when its status is
/// one of the names `$3`.
pub open spec fn add_bid_text() -> Seq<char> {
    "UPDATE buysellentries SET bids = COALESCE(bids, '[]'::jsonb) || $1::jsonb WHERE id = $2 AND status::text = ANY($3) RETURNING "@
        + columns_text(Board::BuySell)
}

/// The statement that adds the claim `$1` to the item `$2` and sets its
/// status to `$3` when its status is one of the names `$4`.
pub open spec fn claim_found_text() -> Seq<char> {
    "UPDATE lostfoundentries SET found_claims = COALESCE(found_claims, '[]'::jsonb) || $1::jsonb, status = $3::item_status WHERE id = $2 AND status::text = ANY($4) RETURNING "@
        + columns_text(Board::LostFound)
}

/// The statement that reads the events to come: those starting after `$1`.
pub open spec fn upcoming_events_text() -> Seq<char> {
    select_all_text(Board::Events) + " WHERE start_datetime > $1"@
}

/// Builds the statement that reads every post of a board.
pub fn select_all_statement(b: Board) -> (r: String)
    ensures
        r@ == select_all_text(b),
{
    let mut r = String::from_str("SELECT ");
    r.append(b.columns());
    r.append(" FROM ");
    r.append(b.table());
    r
}

/// Builds the statement that reads the post `$1` of a board.
pub fn select_one_statement(b: Board) -> (r: String)
    ensures
        r@ == select_one_text(b),
{
    let mut r = select_all_statement(b);
    r.append(" WHERE id = $1");
    r
}

/// Builds the statement that reads the events to come.
pub fn upcoming_events_statement() -> (r: String)
    ensures
        r@ == upcoming_events_text(),
{
    let mut r = select_all_statement(Board::Events);
    r.append(" WHERE start_datetime > $1");
    r
}

/// Builds the statement that removes the post `$1` of the author `$2`.
pub fn delete_statement(b: Board) -> (r: String)
    ensures
        r@ == delete_text(b),
{
    let mut r = String::from_str("DELETE FROM ");
    r.append(b.table());
    r.append(" ");
    r.append(owner_filter(1).as_str());
    r
}

/// Builds the statement that edits a post of its author.
pub fn edit_statement(b: Board) -> (r: String)
    ensures
        r@ == edit_text(b),
{
    let mut r = String::from_str("UPDATE ");
    r.append(b.table());
    r.append(" SET ");
    r.append(b.assignments());
    r.append(" ");
    r.append(owner_filter(b.owner_parameter()).as_str());
    r.append(" RETURNING ");
    r.append(b.columns());
    r
}

/// Builds the statement that adds a post.
pub fn insert_statement(b: Board) -> (r: String)
    ensures
        r@ == insert_text(b),
{
    let mut r = String::from_str("INSERT INTO ");
    r.append(b.table());
    r.append("(");
    r.append(b.inserted_columns());
    r.append(") VALUES(");
    r.append(placeholder_list(b.inserted_count()).as_str());
    r.append(") RETURNING ");
    r.append(b.columns());
    r
}

/// Builds the statement that sets the status of the author's item.
pub fn mark_statement(b: Board) -> (r: String)
    ensures
        r@ == mark_text(b),
{
    let mut r = String::from_str("UPDATE ");
    r.append(b.table());
    r.append(" SET status = $3::item_status ");
    r.append(owner_filter(1).as_str());
    r.append(" RETURNING ");
    r.append(b.columns());
    r
}

/// Builds the statement that adds a bid to an item that takes bids.
pub fn add_bid_statement() -> (r: String)
    ensures
        r@ == add_bid_text(),
{
    let mut r = String::from_str(
        "UPDATE buysellentries SET bids = COALESCE(bids, '[]'::jsonb) || $1::jsonb WHERE id = $2 AND status::text = ANY($3) RETURNING ",
    );
    r.append(Board::BuySell.columns());
    r
}

/// Builds the statement that adds a claim to an item that takes claims.
pub fn claim_found_statement() -> (r: String)
    ensures
        r@ == claim_found_text(),
{
    let mut r = String::from_str(
        "UPDATE lostfoundentries SET found_claims = COALESCE(found_claims, '[]'::jsonb) || $1::jsonb, status = $3::item_status WHERE id = $2 AND status::text = ANY($4) RETURNING ",
    );
    r.append(Board::LostFound.columns());
    r
}

/// A deletion removes one post, the one whose id is `$1`, and only when
/// its author is `$2`.
pub proof fn lemma_delete_one_post_of_its_author(b: Board)
    ensures
        delete_text(b) == "DELETE FROM "@ + table_text(b) + " WHERE id = $1 AND added_by_email = $2"@,
{
    reveal_strlit("WHERE id = $");
    reveal_strlit(" AND added_by_email = $");
    reveal_strlit(" WHERE id = $1 AND added_by_email = $2");
    reveal_strlit(" ");
    assert(decimal(1) =~= seq!['1']);
    assert(decimal(2) =~= seq!['2']);
    assert(" "@ + owner_filter_text(1) =~= " WHERE id = $1 AND added_by_email = $2"@);
    assert(delete_text(b) =~= "DELETE FROM "@ + table_text(b) + " WHERE id = $1 AND added_by_email = $2"@);
}

proof fn lemma_small_decimals()
    ensures
        decimal(1) == seq!['1'],
        decimal(2) == seq!['2'],
        decimal(3) == seq!['3'],
        decimal(4) == seq!['4'],
        decimal(5) == seq!['5'],
        decimal(6) == seq!['6'],
        decimal(7) == seq!['7'],
{
    assert(decimal(1) =~= seq!['1']);
    assert(decimal(2) =~= seq!['2']);
    assert(decimal(3) =~= seq!['3']);
    assert(decimal(4) =~= seq!['4']);
    assert(decimal(5) =~= seq!['5']);
    assert(decimal(6) =~= seq!['6']);
    assert(decimal(7) =~= seq!['7']);
}

proof fn lemma_assignment_list_three(
    x: (Seq<char>, bool),
    y: (Seq<char>, bool),
    z: (Seq<char>, bool),
    first: nat,
)
    ensures
        assignment_list(seq![x, y, z], first) == assignment(x.0, x.1, first) + ", "@ + assignment(
            y.0,
            y.1,
            first + 1,
        ) + ", "@ + assignment(z.0, z.1, first + 2),
{
    let s = seq![x, y, z];
    assert(s.drop_first() =~= seq![y, z]);
    assert(seq![y, z].drop_first() =~= seq![z]);
    assert(assignment_list(seq![z], first + 2) == assignment(z.0, z.1, first + 2));
    assert(assignment_list(seq![y, z], first + 1) == assignment(y.0, y.1, first + 1) + ", "@
        + assignment(z.0, z.1, first + 2));
    assert(assignment_list(s, first) =~= assignment(x.0, x.1, first) + ", "@ + assignment(
        y.0,
        y.1,
        first + 1,
    ) + ", "@ + assignment(z.0, z.1, first + 2));
}

proof fn lemma_assignment_list_five(
    v: (Seq<char>, bool),
    w: (Seq<char>, bool),
    x: (Seq<char>, bool),
    y: (Seq<char>, bool),
    z: (Seq<char>, bool),
    first: nat,
)
    ensures
        assignment_list(seq![v, w, x, y, z], first) == assignment(v.0, v.1, first) + ", "@
            + assignment(w.0, w.1, first + 1) + ", "@ + assignment(x.0, x.1, first + 2) + ", "@
            + assignment(y.0, y.1, first + 3) + ", "@ + assignment(z.0, z.1, first + 4),
{
    let s = seq![v, w, x, y, z];
    assert(s.drop_first() =~= seq![w, x, y, z]);
    assert(seq![w, x, y, z].drop_first() =~= seq![x, y, z]);
    lemma_assignment_list_three(x, y, z, first + 2);
    assert(assignment_list(seq![w, x, y, z], first + 1) == assignment(w.0, w.1, first + 1) + ", "@
        + assignment_list(seq![x, y, z], first + 2));
    assert(assignment_list(s, first) == assignment(v.0, v.1, first) + ", "@ + assignment_list(
        seq![w, x, y, z],
        first + 1,
    ));
    assert(assignment_list(s, first) =~= assignment(v.0, v.1, first) + ", "@ + assignment(
        w.0,
        w.1,
        first + 1,
    ) + ", "@ + assignment(x.0, x.1, first + 2) + ", "@ + assignment(y.0, y.1, first + 3) + ", "@
        + assignment(z.0, z.1, first + 4));
}

/// An edit sets each edited column from the parameter that carries its new
/// value, in the order in which the values are bound: the column that names
/// the post from `$1`, the description from `$2`, and so on; the post's id
/// and its author's address are the two parameters after those values.
pub proof fn lemma_edit_sets_fields_in_bind_order(b: Board)
    ensures
        assignments_text(b) == assignment_list(edit_fields(b), 1),
        owner_parameter(b) == edit_fields(b).len() + 1,
        edit_fields(b)[0] == (name_column(b), false),
        edit_fields(b)[1] == ("description"@, false),
        edit_text(b) == "UPDATE "@ + table_text(b) + " SET "@ + assignment_list(edit_fields(b), 1)
            + " WHERE id = $"@ + decimal(owner_parameter(b) as int) + " AND added_by_email = $"@
            + decimal(owner_parameter(b) + 1int) + " RETURNING "@ + columns_text(b),
{
    lemma_small_decimals();
    reveal_strlit(" = $");
    reveal_strlit(" = COALESCE($");
    reveal_strlit(", ");
    reveal_strlit(")");
    reveal_strlit("title");
    reveal_strlit("name");
    reveal_strlit("item_name");
    reveal_strlit("description");
    reveal_strlit("img_url");
    reveal_strlit("img_urls");
    reveal_strlit("poster_url");
    reveal_strlit("address");
    reveal_strlit("start_datetime");
    reveal_strlit(" ");
    reveal_strlit("WHERE id = $");
    reveal_strlit(" WHERE id = $");
    assert(" "@ + "WHERE id = $"@ =~= " WHERE id = $"@);
    let f = edit_fields(b);
    match b {
        Board::Announcements => {
            reveal_strlit("title = $1, description = $2, img_url = COALESCE($3, img_url)");
            lemma_assignment_list_three(f[0], f[1], f[2], 1);
            assert(f =~= seq![f[0], f[1], f[2]]);
            assert(assignments_text(b) =~= assignment_list(f, 1));
        },
        Board::Events => {
            reveal_strlit(
                "name = $1, description = $2, poster_url = COALESCE($3, poster_url), address = $4, start_datetime = $5",
            );
            lemma_assignment_list_five(f[0], f[1], f[2], f[3], f[4], 1);
            assert(f =~= seq![f[0], f[1], f[2], f[3], f[4]]);
            assert(assignments_text(b) =~= assignment_list(f, 1));
        },
        Board::BuySell => {
            reveal_strlit("item_name = $1, description = $2, img_urls = $3");
            lemma_assignment_list_three(f[0], f[1], f[2], 1);
            assert(f =~= seq![f[0], f[1], f[2]]);
            assert(assignments_text(b) =~= assignment_list(f, 1));
        },
        Board::LostFound => {
            reveal_strlit("item_name = $1, description = $2, img_urls = $3");
            lemma_assignment_list_three(f[0], f[1], f[2], 1);
            assert(f =~= seq![f[0], f[1], f[2]]);
            assert(assignments_text(b) =~= assignment_list(f, 1));
        },
    }
    assert(edit_text(b) =~= "UPDATE "@ + table_text(b) + " SET "@ + assignment_list(f, 1)
        + " WHERE id = $"@ + decimal(owner_parameter(b) as int) + " AND added_by_email = $"@
        + decimal(owner_parameter(b) + 1int) + " RETURNING "@ + columns_text(b));
}

proof fn lemma_column_list_five(v: Seq<char>, w: Seq<char>, x: Seq<char>, y: Seq<char>, z: Seq<char>)
    ensures
        column_list(seq![v, w, x, y, z]) == v + ", "@ + w + ", "@ + x + ", "@ + y + ", "@ + z,
{
    let s = seq![v, w, x, y, z];
    assert(s.drop_first() =~= seq![w, x, y, z]);
    assert(seq![w, x, y, z].drop_first() =~= seq![x, y, z]);
    assert(seq![x, y, z].drop_first() =~= seq![y, z]);
    assert(seq![y, z].drop_first() =~= seq![z]);
    assert(column_list(seq![z]) == z);
    assert(column_list(seq![y, z]) == y + ", "@ + z);
    assert(column_list(seq![x, y, z]) == x + ", "@ + column_list(seq![y, z]));
    assert(column_list(seq![w, x, y, z]) == w + ", "@ + column_list(seq![x, y, z]));
    assert(column_list(s) == v + ", "@ + column_list(seq![w, x, y, z]));
    assert(column_list(s) =~= v + ", "@ + w + ", "@ + x + ", "@ + y + ", "@ + z);
}

proof fn lemma_column_list_six(
    u: Seq<char>,
    v: Seq<char>,
    w: Seq<char>,
    x: Seq<char>,
    y: Seq<char>,
    z: Seq<char>,
)
    ensures
        column_list(seq![u, v, w, x, y, z]) == u + ", "@ + v + ", "@ + w + ", "@ + x + ", "@ + y
            + ", "@ + z,
{
    let s = seq![u, v, w, x, y, z];
    assert(s.drop_first() =~= seq![v, w, x, y, z]);
    lemma_column_list_five(v, w, x, y, z);
    assert(column_list(s) == u + ", "@ + column_list(seq![v, w, x, y, z]));
    assert(column_list(s) =~= u + ", "@ + v + ", "@ + w + ", "@ + x + ", "@ + y + ", "@ + z);
}

/// A new post lists its columns in the order in which its values are bound,
/// so that the column that names the post takes `$1` and the description
/// `$2`; there is one parameter for each column.
pub proof fn lemma_insert_lists_fields_in_bind_order(b: Board)
    ensures
        inserted_columns_text(b) == column_list(insert_fields(b)),
        inserted_count(b) == insert_fields(b).len(),
        insert_fields(b)[0] == name_column(b),
        insert_fields(b)[1] == "description"@,
        insert_text(b) == "INSERT INTO "@ + table_text(b) + "("@ + column_list(insert_fields(b))
            + ") VALUES("@ + placeholders(insert_fields(b).len()) + ") RETURNING "@ + columns_text(b),
{
    reveal_strlit(", ");
    reveal_strlit("title");
    reveal_strlit("name");
    reveal_strlit("item_name");
    reveal_strlit("description");
    reveal_strlit("added_on_timestamp");
    reveal_strlit("added_by_email");
    reveal_strlit("img_url");
    reveal_strlit("img_urls");
    reveal_strlit("poster_url");
    reveal_strlit("address");
    reveal_strlit("start_datetime");
    let f = insert_fields(b);
    match b {
        Board::Announcements => {
            reveal_strlit("title, description, added_on_timestamp, added_by_email, img_url");
            lemma_column_list_five(f[0], f[1], f[2], f[3], f[4]);
            assert(f =~= seq![f[0], f[1], f[2], f[3], f[4]]);
        },
        Board::Events => {
            reveal_strlit("name, description, poster_url, added_by_email, address, start_datetime");
            lemma_column_list_six(f[0], f[1], f[2], f[3], f[4], f[5]);
            assert(f =~= seq![f[0], f[1], f[2], f[3], f[4], f[5]]);
        },
        Board::BuySell => {
            reveal_strlit("item_name, description, added_on_timestamp, added_by_email, img_urls");
            lemma_column_list_five(f[0], f[1], f[2], f[3], f[4]);
            assert(f =~= seq![f[0], f[1], f[2], f[3], f[4]]);
        },
        Board::LostFound => {
            reveal_strlit("item_name, description, added_on_timestamp, added_by_email, img_urls");
            lemma_column_list_five(f[0], f[1], f[2], f[3], f[4]);
            assert(f =~= seq![f[0], f[1], f[2], f[3], f[4]]);
        },
    }
    assert(inserted_columns_text(b) =~= column_list(f));
}

/// Every statement of a board returns a post's id first, then the column
/// that names the post, then its description.
pub proof fn lemma_returned_columns_start_with_name(b: Board)
    ensures
        ("id, "@ + name_column(b) + ", description, "@).is_prefix_of(columns_text(b)),
{
    reveal_strlit("id, ");
    reveal_strlit("title");
    reveal_strlit("name");
    reveal_strlit("item_name");
    reveal_strlit(", description, ");
    let p = "id, "@ + name_column(b) + ", description, "@;
    match b {
        Board::Announcements => {
            reveal_strlit("id, title, description, added_on_timestamp, added_by_email, img_url");
        },
        Board::Events => {
            reveal_strlit("id, name, description, poster_url, added_by_email, address, start_datetime");
        },
        Board::BuySell => {
            reveal_strlit(
                "id, item_name, description, added_on_timestamp, added_by_email, status, bids, img_urls",
            );
        },
        Board::LostFound => {
            reveal_strlit(
                "id, item_name, description, added_on_timestamp, added_by_email, status, found_claims, img_urls",
            );
        },
    }
    assert(p =~= columns_text(b).subrange(0, p.len() as int));
}

/// Setting an item's status changes one item, the one whose id is `$1`,
/// and only when its author is `$2`; the new status is `$3`.
pub proof fn lemma_mark_one_item_of_its_author(b: Board)
    ensures
        mark_text(b) == "UPDATE "@ + table_text(b)
            + " SET status = $3::item_status WHERE id = $1 AND added_by_email = $2 RETURNING "@
            + columns_text(b),
{
    reveal_strlit(" SET status = $3::item_status ");
    reveal_strlit("WHERE id = $");
    reveal_strlit(" AND added_by_email = $");
    reveal_strlit(" RETURNING ");
    reveal_strlit(" SET status = $3::item_status WHERE id = $1 AND added_by_email = $2 RETURNING ");
    assert(decimal(1) =~= seq!['1']);
    assert(decimal(2) =~= seq!['2']);
    assert(" SET status = $3::item_status "@ + owner_filter_text(1) + " RETURNING "@
        =~= " SET status = $3::item_status WHERE id = $1 AND added_by_email = $2 RETURNING "@);
    assert(mark_text(b) =~= "UPDATE "@ + table_text(b)
        + " SET status = $3::item_status WHERE id = $1 AND added_by_email = $2 RETURNING "@
        + columns_text(b));
}

/// Reading one post reads the post whose id is `$1`, with the same columns,
/// from the same table, as reading every post.
pub proof fn lemma_select_one_reads_post_by_id(b: Board)
    ensures
        select_one_text(b) == "SELECT "@ + columns_text(b) + " FROM "@ + table_text(b)
            + " WHERE id = $1"@,
        select_all_text(b) == "SELECT "@ + columns_text(b) + " FROM "@ + table_text(b),
{
}

/// The events to come are the events whose start is after `$1`.
pub proof fn lemma_upcoming_events_start_after_now()
    ensures
        upcoming_events_text() == "SELECT "@ + columns_text(Board::Events) + " FROM events"@
            + " WHERE start_datetime > $1"@,
{
    reveal_strlit(" FROM ");
    reveal_strlit("events");
    reveal_strlit(" FROM events");
    assert(" FROM "@ + "events"@ =~= " FROM events"@);
    assert(upcoming_events_text() =~= "SELECT "@ + columns_text(Board::Events) + " FROM events"@
        + " WHERE start_datetime > $1"@);
}

/// Each board keeps its posts in a table of its own.
pub proof fn lemma_boards_have_own_tables(b: Board, c: Board)
    requires
        b != c,
    ensures
        table_text(b) != table_text(c),
{
    reveal_strlit("announcements");
    reveal_strlit("events");
    reveal_strlit("buysellentries");
    reveal_strlit("lostfoundentries");
    if table_text(b) == table_text(c) {
        assert(table_text(b).len() == table_text(c).len());
        assert(table_text(b)[0] == table_text(c)[0]);
    }
}

} // verus!
