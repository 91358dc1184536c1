use campus_backend::decimal::{i64_to_decimal, u64_to_decimal};
use campus_backend::images::{prepare_image, reply_saved_image, strip_data_url_header};

#[test]
fn decimal_notation() {
    assert_eq!(u64_to_decimal(0), "0");
    assert_eq!(u64_to_decimal(7), "7");
    assert_eq!(u64_to_decimal(10), "10");
    assert_eq!(u64_to_decimal(u64::MAX), u64::MAX.to_string());
    assert_eq!(i64_to_decimal(1_700_000_000), "1700000000");
    assert_eq!(i64_to_decimal(-5), "-5");
    assert_eq!(i64_to_decimal(i64::MIN), i64::MIN.to_string());
    assert_eq!(i64_to_decimal(i64::MAX), i64::MAX.to_string());
}

#[test]
fn data_url_header_is_dropped() {
    assert_eq!(strip_data_url_header("data:image/png;base64,aGVsbG8="), b"aGVsbG8=");
    assert_eq!(strip_data_url_header("aGVsbG8="), b"aGVsbG8=");
    assert_eq!(strip_data_url_header("a,b,c"), b"b,c");
    assert_eq!(strip_data_url_header(","), b"");
}

#[test]
fn upload_is_decoded_and_named_by_time() {
    let f = prepare_image("data:image/png;base64,aGVsbG8=", "/srv/images", 1_700_000_000).unwrap();
    assert_eq!(f.bytes, b"hello".to_vec());
    assert_eq!(f.path, "/srv/images/1700000000");
    assert_eq!(f.url, "images/1700000000");
    let g = prepare_image("aGk=", "img", -3).unwrap();
    assert_eq!(g.bytes, b"hi".to_vec());
    assert_eq!(g.path, "img/-3");
    assert_eq!(g.url, "images/-3");
}

#[test]
fn upload_that_is_not_base64_is_refused() {
    assert!(prepare_image("data:image/png;base64,not base64!", "d", 1).is_none());
    assert!(prepare_image("abc", "d", 1).is_none());
}

#[test]
fn saved_image_outcomes() {
    assert_eq!(reply_saved_image(None, "x").ok(), Some(None));
    assert_eq!(
        reply_saved_image(Some(Some("images/1".to_string())), "x").ok(),
        Some(Some("images/1".to_string()))
    );
    let e = reply_saved_image(Some(None), "Couldn't save outlet image").err().unwrap();
    assert_eq!((e.status, e.message.as_str()), (500, "Couldn't save outlet image"));
}
