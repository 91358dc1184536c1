use campus_backend::claims::{ClaimValue, Claims};
use campus_backend::ownership::{owned_target, owner_filter, stamp};
use campus_backend::routes::{announcements, buy_sell, lost_found};

fn signed_in(email: &str) -> Option<Claims> {
    let mut c = Claims::new();
    c.insert("email".to_string(), ClaimValue::Text(email.to_string()));
    Some(c)
}

#[test]
fn owner_filter_numbers_its_parameters() {
    assert_eq!(owner_filter(1), "WHERE id = $1 AND added_by_email = $2");
    assert_eq!(owner_filter(9), "WHERE id = $9 AND added_by_email = $10");
}

#[test]
fn owned_target_is_the_callers_row() {
    let t = owned_target(42, signed_in("owner@iith.ac.in")).ok().unwrap();
    assert_eq!(t.id, 42);
    assert_eq!(t.owner, "owner@iith.ac.in");
    let e = owned_target(42, None).err().unwrap();
    assert_eq!((e.status, e.message.as_str()), (403, "Couldn't authenticate user"));
    let e = owned_target(42, Some(Claims::new())).err().unwrap();
    assert_eq!((e.status, e.message.as_str()), (403, "Invalid user"));
}

#[test]
fn stamp_uses_token_and_server_time() {
    let s = stamp(signed_in("bidder@iith.ac.in"), 1_700_000_123).ok().unwrap();
    assert_eq!(s.by, "bidder@iith.ac.in");
    assert_eq!(s.at, 1_700_000_123);
    let e = stamp(None, 5).err().unwrap();
    assert_eq!((e.status, e.message.as_str()), (403, "Couldn't authenticate user"));
}

#[test]
fn pictures_of_new_items() {
    let ok = buy_sell::add_buy_sell_images_reply(vec![Some("images/1".to_string()), Some("images/2".to_string())]);
    assert_eq!(ok.ok(), Some(vec!["images/1".to_string(), "images/2".to_string()]));
    assert_eq!(lost_found::add_lost_found_images_reply(vec![]).ok(), Some(vec![]));
    let e = lost_found::add_lost_found_images_reply(vec![Some("images/1".to_string()), None]).err().unwrap();
    assert_eq!((e.status, e.message.as_str()), (500, "Couldn't save item image"));
}

#[test]
fn pictures_of_edited_items() {
    let ok = buy_sell::edit_buy_sell_images_reply(vec![Some("images/5".to_string())]);
    assert_eq!(ok.ok(), Some(vec!["images/5".to_string()]));
    let e = buy_sell::edit_buy_sell_images_reply(vec![None]).err().unwrap();
    assert_eq!((e.status, e.message.as_str()), (500, "Couldn't save item image"));
    let e = lost_found::edit_lost_found_images_reply(vec![Some("images/5".to_string()), None]).err().unwrap();
    assert_eq!((e.status, e.message.as_str()), (500, "Couldn't save item image"));
    assert_eq!(lost_found::edit_lost_found_images_reply(vec![]).ok(), Some(vec![]));
}

#[test]
fn announcement_pictures() {
    let e = announcements::add_announcement_image_reply(Some(None)).err().unwrap();
    assert_eq!((e.status, e.message.as_str()), (500, "Couldn't save announcement image"));
    assert_eq!(announcements::add_announcement_image_reply(None).ok(), Some(None));
    assert_eq!(announcements::edit_announcement_image(Some(None)), None);
    assert_eq!(announcements::edit_announcement_image(None), None);
    assert_eq!(
        announcements::edit_announcement_image(Some(Some("images/3".to_string()))),
        Some("images/3".to_string())
    );
}
