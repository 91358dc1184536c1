use campus_backend::db::{Executed, Fetched};
use campus_backend::http::{invalid_payload, HttpError};
use campus_backend::routes::{admin, announcements, bus, buy_sell, events, lost_found, mess, outlets};

fn err<T>(r: Result<T, HttpError>) -> (u16, String) {
    match r {
        Ok(_) => panic!("expected an error"),
        Err(e) => (e.status, e.message),
    }
}

fn e(status: u16, m: &str) -> (u16, String) {
    (status, m.to_string())
}

#[test]
fn payload_that_does_not_parse() {
    let p = invalid_payload();
    assert_eq!((p.status, p.message.as_str()), (400, "Invalid JSON payload"));
}

#[test]
fn rows_are_passed_through() {
    assert_eq!(buy_sell::get_buy_sell_by_id_reply(Fetched::Row(7)).ok(), Some(7));
    assert_eq!(events::get_events_reply(Fetched::Row(vec![1, 2])).ok(), Some(vec![1, 2]));
    assert_eq!(admin::add_admin_reply(Executed::Affected(1), "a").ok(), Some("a"));
    assert!(lost_found::delete_lost_found_reply(Executed::Affected(2)).is_ok());
}

#[test]
fn admin_replies() {
    assert_eq!(err(admin::get_admins_reply::<u8>(Fetched::Failed)), e(500, "Couldn't fetch admins from database"));
    assert_eq!(err(admin::get_admin_permissions_reply::<u8>(Fetched::NotFound)), e(403, "Forbidden"));
    assert_eq!(
        err(admin::get_admin_permissions_reply::<u8>(Fetched::Failed)),
        e(500, "Failed getting admin permissions from database")
    );
    assert_eq!(
        err(admin::add_admin_reply(Executed::Failed, 1)),
        e(500, "Couldn't add admin to admin to the database")
    );
}

#[test]
fn announcement_replies() {
    assert_eq!(err(announcements::get_all_announcements_reply::<u8>(Fetched::NotFound)), e(404, "No announcement found"));
    assert_eq!(err(announcements::get_all_announcements_reply::<u8>(Fetched::Failed)), e(500, "Error fetching announcement"));
    assert_eq!(err(announcements::get_announcement_by_id_reply::<u8>(Fetched::NotFound)), e(404, "Announcement not found"));
    assert_eq!(err(announcements::delete_announcement_reply(Executed::Affected(0))), e(404, "announcement not found"));
    assert_eq!(
        err(announcements::delete_announcement_reply(Executed::Failed)),
        e(500, "Couldn't delete announcement entry from the database")
    );
    assert_eq!(
        err(announcements::edit_announcement_reply::<u8>(Fetched::NotFound)),
        e(404, "Couldn't get announcement_entry from db")
    );
    assert_eq!(
        err(announcements::edit_announcement_reply::<u8>(Fetched::Failed)),
        e(500, "Couldn't edit announcement entry in the database")
    );
    assert_eq!(
        err(announcements::add_announcement_reply::<u8>(Fetched::Failed)),
        e(500, "Couldn't add buy sell entry in the database")
    );
}

#[test]
fn marketplace_replies() {
    assert_eq!(err(buy_sell::get_all_buy_sell_reply::<u8>(Fetched::Failed)), e(500, "Couldn't fetch buy sell entries from database"));
    assert_eq!(err(buy_sell::get_buy_sell_by_id_reply::<u8>(Fetched::NotFound)), e(404, "Couldn't get buy_sell_entry from db"));
    assert_eq!(err(buy_sell::get_buy_sell_by_id_reply::<u8>(Fetched::Failed)), e(500, "Couldn't get buy_sell_entry from db"));
    assert_eq!(err(buy_sell::add_buy_sell_reply::<u8>(Fetched::Failed)), e(500, "Couldn't add buy sell entry in the database"));
    assert_eq!(err(buy_sell::edit_buy_sell_reply::<u8>(Fetched::NotFound)), e(404, "Couldn't get buy_sell_entry from db"));
    assert_eq!(err(buy_sell::edit_buy_sell_reply::<u8>(Fetched::Failed)), e(500, "Couldn't edit buy sell entry in the database"));
    assert_eq!(err(buy_sell::delete_buy_sell_reply(Executed::Affected(0))), e(404, "entry not found"));
    assert_eq!(err(buy_sell::delete_buy_sell_reply(Executed::Failed)), e(500, "Couldn't delete buy sell entry from the database"));
    assert_eq!(err(buy_sell::mark_sold_reply::<u8>(Fetched::NotFound)), e(403, "Couldn't update item as sold"));
    assert_eq!(err(buy_sell::mark_sold_reply::<u8>(Fetched::Failed)), e(403, "Couldn't update item as sold"));
    assert_eq!(err(buy_sell::add_bid_reply::<u8>(Fetched::NotFound)), e(404, "Couldn't add bid in the database"));
    assert_eq!(err(buy_sell::add_bid_reply::<u8>(Fetched::Failed)), e(500, "Couldn't add bid in the database"));
}

#[test]
fn lost_found_replies() {
    assert_eq!(err(lost_found::get_all_lost_found_reply::<u8>(Fetched::Failed)), e(500, "Couldn't fetch lost found entries from database"));
    assert_eq!(err(lost_found::get_lost_found_by_id_reply::<u8>(Fetched::NotFound)), e(404, "Couldn't get lost_found_entry from db"));
    assert_eq!(err(lost_found::add_lost_found_reply::<u8>(Fetched::Failed)), e(500, "Couldn't add lost found entry in the database"));
    assert_eq!(err(lost_found::edit_lost_found_reply::<u8>(Fetched::NotFound)), e(404, "Couldn't get lost_found_entry from db"));
    assert_eq!(err(lost_found::edit_lost_found_reply::<u8>(Fetched::Failed)), e(500, "Couldn't edit lost found entry in the database"));
    assert_eq!(err(lost_found::delete_lost_found_reply(Executed::Affected(0))), e(404, "entry not found"));
    assert_eq!(err(lost_found::delete_lost_found_reply(Executed::Failed)), e(500, "Couldn't delete lost found entry from the database"));
    assert_eq!(err(lost_found::mark_found_reply::<u8>(Fetched::NotFound)), e(403, "Couldn't update item as found"));
    assert_eq!(err(lost_found::claim_found_reply::<u8>(Fetched::NotFound)), e(404, "Couldn't add found claim in the database"));
    assert_eq!(err(lost_found::claim_found_reply::<u8>(Fetched::Failed)), e(500, "Couldn't add found claim in the database"));
}

#[test]
fn event_replies() {
    assert_eq!(err(events::get_events_reply::<u8>(Fetched::Failed)), e(500, "Couldn't get events from the database"));
    assert_eq!(err(events::get_event_reply::<u8>(Fetched::NotFound)), e(500, "Couldn't get event from the database"));
    assert_eq!(err(events::add_event_reply::<u8>(Fetched::Failed)), e(500, "Couldn't add event to database"));
    assert_eq!(err(events::edit_event_reply::<u8>(Fetched::NotFound)), e(404, "event not found"));
    assert_eq!(err(events::edit_event_reply::<u8>(Fetched::Failed)), e(500, "Couldn't edit event entry in the database"));
    assert_eq!(err(events::delete_event_reply(Executed::Affected(0))), e(404, "event not found"));
    assert_eq!(err(events::delete_event_reply(Executed::Failed)), e(500, "Couldn't delete event entry from the database"));
    assert_eq!(err(events::event_poster_reply(Some(None))), e(500, "Couldn't save event poster image"));
    assert_eq!(events::event_poster_reply(None).ok(), Some(None));
}

#[test]
fn outlet_mess_bus_replies() {
    assert_eq!(err(outlets::get_outlets_reply::<u8>(Fetched::Failed)), e(500, "Couldn't get outlets from database"));
    assert_eq!(err(outlets::get_outlet_reply::<u8>(Fetched::NotFound)), e(500, "Couldn't get outlet from the database"));
    assert_eq!(err(outlets::add_outlet_reply::<u8>(Fetched::Failed)), e(500, "Couldn't add outlet to database"));
    assert_eq!(err(outlets::outlet_image_reply(Some(None))), e(500, "Couldn't save outlet image"));
    assert_eq!(err(mess::get_mess_menu_reply::<u8>(Fetched::Failed)), e(500, "Couldn't get mess_menu from database"));
    assert_eq!(err(bus::get_bus_reply::<u8>(Fetched::Failed)), e(500, "Couldn't get bus_schedule from database"));
}

#[test]
fn bus_data_exceptions() {
    assert!(bus::is_data_exception("22007"));
    assert!(bus::is_data_exception("22"));
    assert!(!bus::is_data_exception("23505"));
    assert!(!bus::is_data_exception("2"));
    assert!(!bus::is_data_exception(""));
    assert_eq!(bus::add_bus_reply::<u8>(Ok(3)).ok(), Some(3));
    assert_eq!(
        err(bus::add_bus_reply::<u8>(Err(Some("22007".to_string())))),
        e(400, "Invalid departure_time \u{2014} use a clock time such as \"07:30\"")
    );
    assert_eq!(err(bus::add_bus_reply::<u8>(Err(Some("23505".to_string())))), e(500, "Couldn't add bus_entry to database"));
    assert_eq!(err(bus::add_bus_reply::<u8>(Err(None))), e(500, "Couldn't add bus_entry to database"));
}
