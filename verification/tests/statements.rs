use campus_backend::statements::{
    add_bid_statement, claim_found_statement, delete_statement, edit_statement, insert_statement,
    mark_statement, select_all_statement, select_one_statement, upcoming_events_statement, Board,
};

const BUY_SELL_COLUMNS: &str = "id, item_name, description, added_on_timestamp, added_by_email, status, bids, img_urls";
const LOST_FOUND_COLUMNS: &str = "id, item_name, description, added_on_timestamp, added_by_email, status, found_claims, img_urls";
const EVENT_COLUMNS: &str = "id, name, description, poster_url, added_by_email, address, start_datetime";
const ANNOUNCEMENT_COLUMNS: &str = "id, title, description, added_on_timestamp, added_by_email, img_url";

#[test]
fn reads() {
    assert_eq!(select_all_statement(Board::BuySell), format!("SELECT {BUY_SELL_COLUMNS} FROM buysellentries"));
    assert_eq!(
        select_one_statement(Board::Announcements),
        format!("SELECT {ANNOUNCEMENT_COLUMNS} FROM announcements WHERE id = $1")
    );
    assert_eq!(
        upcoming_events_statement(),
        format!("SELECT {EVENT_COLUMNS} FROM events WHERE start_datetime > $1")
    );
}

#[test]
fn deletions_filter_on_author() {
    assert_eq!(delete_statement(Board::Events), "DELETE FROM events WHERE id = $1 AND added_by_email = $2");
    assert_eq!(
        delete_statement(Board::LostFound),
        "DELETE FROM lostfoundentries WHERE id = $1 AND added_by_email = $2"
    );
}

#[test]
fn edits_filter_on_author() {
    assert_eq!(
        edit_statement(Board::Events),
        format!("UPDATE events SET name = $1, description = $2, poster_url = COALESCE($3, poster_url), address = $4, start_datetime = $5 WHERE id = $6 AND added_by_email = $7 RETURNING {EVENT_COLUMNS}")
    );
    assert_eq!(
        edit_statement(Board::Announcements),
        format!("UPDATE announcements SET title = $1, description = $2, img_url = COALESCE($3, img_url) WHERE id = $4 AND added_by_email = $5 RETURNING {ANNOUNCEMENT_COLUMNS}")
    );
    assert_eq!(
        edit_statement(Board::BuySell),
        format!("UPDATE buysellentries SET item_name = $1, description = $2, img_urls = $3 WHERE id = $4 AND added_by_email = $5 RETURNING {BUY_SELL_COLUMNS}")
    );
}

#[test]
fn insertions_and_marks() {
    assert_eq!(
        insert_statement(Board::Events),
        format!("INSERT INTO events(name, description, poster_url, added_by_email, address, start_datetime) VALUES($1, $2, $3, $4, $5, $6) RETURNING {EVENT_COLUMNS}")
    );
    assert_eq!(
        insert_statement(Board::LostFound),
        format!("INSERT INTO lostfoundentries(item_name, description, added_on_timestamp, added_by_email, img_urls) VALUES($1, $2, $3, $4, $5) RETURNING {LOST_FOUND_COLUMNS}")
    );
    assert_eq!(
        mark_statement(Board::BuySell),
        format!("UPDATE buysellentries SET status = $3::item_status WHERE id = $1 AND added_by_email = $2 RETURNING {BUY_SELL_COLUMNS}")
    );
}

#[test]
fn bids_and_claims() {
    assert_eq!(
        add_bid_statement(),
        format!("UPDATE buysellentries SET bids = COALESCE(bids, '[]'::jsonb) || $1::jsonb WHERE id = $2 AND status::text = ANY($3) RETURNING {BUY_SELL_COLUMNS}")
    );
    assert_eq!(
        claim_found_statement(),
        format!("UPDATE lostfoundentries SET found_claims = COALESCE(found_claims, '[]'::jsonb) || $1::jsonb, status = $3::item_status WHERE id = $2 AND status::text = ANY($4) RETURNING {LOST_FOUND_COLUMNS}")
    );
}
