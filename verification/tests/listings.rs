use campus_backend::schemas::buy_sell::BuySellStatus;
use campus_backend::schemas::lost_found::LostFoundStatus;

#[test]
fn status_names() {
    assert_eq!(BuySellStatus::Selling.db_name(), "selling");
    assert_eq!(BuySellStatus::Sold.db_name(), "sold");
    assert_eq!(LostFoundStatus::Lost.db_name(), "lost");
    assert_eq!(LostFoundStatus::Found.db_name(), "found");
    assert_eq!(LostFoundStatus::ClaimedToBeFound.db_name(), "claimed_to_be_found");
}

#[test]
fn new_listings() {
    assert_eq!(BuySellStatus::default(), BuySellStatus::Selling);
    assert_eq!(LostFoundStatus::default(), LostFoundStatus::Lost);
}

#[test]
fn bids_only_while_selling() {
    assert!(BuySellStatus::Selling.accepts_bids());
    assert!(!BuySellStatus::Sold.accepts_bids());
    assert!(!BuySellStatus::after_sale().accepts_bids());
    assert_eq!(BuySellStatus::bid_status_names(), vec!["selling".to_string()]);
}

#[test]
fn claims_until_found() {
    assert!(LostFoundStatus::Lost.accepts_claims());
    assert!(LostFoundStatus::ClaimedToBeFound.accepts_claims());
    assert!(!LostFoundStatus::Found.accepts_claims());
    assert!(LostFoundStatus::after_claim().accepts_claims());
    assert!(!LostFoundStatus::after_recovery().accepts_claims());
    assert_eq!(
        LostFoundStatus::claim_status_names(),
        vec!["lost".to_string(), "claimed_to_be_found".to_string()]
    );
}
