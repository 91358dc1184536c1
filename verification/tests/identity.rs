use campus_backend::auth::{authenticate_user, grant_email, grant_result, Guard, GuardAction, GuardEvent};
use campus_backend::claims::{ClaimValue, Claims};
use campus_backend::db::Fetched;
use campus_backend::routes::admin::admin_permissions_caller;
use campus_backend::schemas::admin::AdminPermission;

fn claims_with(entries: Vec<(&str, ClaimValue)>) -> Claims {
    let mut c = Claims::new();
    for (k, v) in entries {
        c.insert(k.to_string(), v);
    }
    c
}

fn text(s: &str) -> ClaimValue {
    ClaimValue::Text(s.to_string())
}

#[test]
fn claims_get_gives_back_the_last_insert() {
    let mut c = Claims::new();
    assert!(c.get("email").is_none());
    c.insert("email".to_string(), text("a@x.in"));
    c.insert("name".to_string(), ClaimValue::Other);
    c.insert("email".to_string(), text("b@x.in"));
    match c.get("email") {
        Some(ClaimValue::Text(e)) => assert_eq!(e, "b@x.in"),
        _ => panic!("email claim lost"),
    }
    assert!(matches!(c.get("name"), Some(ClaimValue::Other)));
    assert!(c.get("sub").is_none());
}

#[test]
fn user_is_the_email_claim() {
    let c = claims_with(vec![("sub", text("123")), ("email", text("user@iith.ac.in"))]);
    assert_eq!(authenticate_user(Some(c)).ok(), Some("user@iith.ac.in".to_string()));
}

#[test]
fn user_refusals() {
    let e = authenticate_user(None).err().unwrap();
    assert_eq!((e.status, e.message.as_str()), (403, "Couldn't authenticate user"));
    let e = authenticate_user(Some(claims_with(vec![("sub", text("1"))]))).err().unwrap();
    assert_eq!((e.status, e.message.as_str()), (403, "Invalid user"));
    let e = authenticate_user(Some(claims_with(vec![("email", ClaimValue::Other)]))).err().unwrap();
    assert_eq!((e.status, e.message.as_str()), (403, "Invalid user"));
}

#[test]
fn admin_caller_refusals() {
    let e = admin_permissions_caller(None).err().unwrap();
    assert_eq!((e.status, e.message.as_str()), (403, "Invalid user"));
    let e = admin_permissions_caller(Some(Claims::new())).err().unwrap();
    assert_eq!((e.status, e.message.as_str()), (403, "Invalid user"));
    let e = admin_permissions_caller(Some(claims_with(vec![("email", ClaimValue::Other)])))
        .err()
        .unwrap();
    assert_eq!((e.status, e.message.as_str()), (500, "This shouldn't happen in any case"));
    let ok = admin_permissions_caller(Some(claims_with(vec![("email", text("a@b.c"))])));
    assert_eq!(ok.ok(), Some("a@b.c".to_string()));
}

#[test]
fn grant_check_reasons() {
    assert_eq!(grant_email(None).err(), Some("Could not authorize user".to_string()));
    assert_eq!(grant_email(Some(Claims::new())).err(), Some("Invalid user".to_string()));
    assert_eq!(
        grant_email(Some(claims_with(vec![("email", text("a@b.c"))]))).ok(),
        Some("a@b.c".to_string())
    );
    assert_eq!(grant_result(Fetched::Row(true)).ok(), Some(true));
    assert_eq!(grant_result(Fetched::Row(false)).ok(), Some(false));
    assert_eq!(grant_result(Fetched::NotFound).ok(), Some(false));
    assert_eq!(
        grant_result(Fetched::Failed).err(),
        Some("Couldn't check permission in database".to_string())
    );
}

#[test]
fn guard_admits_holder() {
    let mut g = Guard::new(AdminPermission::PostMessMenu);
    match g.step(GuardEvent::TokenRead(Some("tok".to_string()))) {
        GuardAction::ValidateToken(t) => assert_eq!(t, "tok"),
        _ => panic!("expected validation"),
    }
    let c = claims_with(vec![("email", text("admin@iith.ac.in"))]);
    match g.step(GuardEvent::ClaimsRead(Some(c))) {
        GuardAction::CheckGrant { query, email } => {
            assert_eq!(query, "SELECT post_mess_menu FROM admins WHERE email = $1");
            assert_eq!(email, "admin@iith.ac.in");
        }
        _ => panic!("expected permission check"),
    }
    match g.step(GuardEvent::GrantRead(Fetched::Row(true))) {
        GuardAction::Admit(e) => assert_eq!(e, "admin@iith.ac.in"),
        _ => panic!("expected admission"),
    }
}

fn refusal(a: GuardAction) -> (u16, String) {
    match a {
        GuardAction::Refuse(e) => (e.status, e.message),
        _ => panic!("expected a refusal"),
    }
}

#[test]
fn guard_refusals() {
    let mut g = Guard::new(AdminPermission::GetAdmin);
    assert_eq!(refusal(g.step(GuardEvent::TokenRead(None))), (400, "Invalid token".to_string()));

    let mut g = Guard::new(AdminPermission::GetAdmin);
    g.step(GuardEvent::TokenRead(Some("t".to_string())));
    assert_eq!(
        refusal(g.step(GuardEvent::ClaimsRead(None))),
        (500, "Couldn't authenticate user".to_string())
    );

    let mut g = Guard::new(AdminPermission::GetAdmin);
    g.step(GuardEvent::TokenRead(Some("t".to_string())));
    assert_eq!(
        refusal(g.step(GuardEvent::ClaimsRead(Some(Claims::new())))),
        (500, "Couldn't authenticate user".to_string())
    );

    let mut g = Guard::new(AdminPermission::GetAdmin);
    g.step(GuardEvent::TokenRead(Some("t".to_string())));
    g.step(GuardEvent::ClaimsRead(Some(claims_with(vec![("email", text("x@y.z"))]))));
    assert_eq!(refusal(g.step(GuardEvent::GrantRead(Fetched::Row(false)))), (403, "Forbidden".to_string()));

    let mut g = Guard::new(AdminPermission::GetAdmin);
    g.step(GuardEvent::TokenRead(Some("t".to_string())));
    g.step(GuardEvent::ClaimsRead(Some(claims_with(vec![("email", text("x@y.z"))]))));
    assert_eq!(
        refusal(g.step(GuardEvent::GrantRead(Fetched::Failed))),
        (500, "Couldn't authenticate user".to_string())
    );
}

#[test]
fn guard_refuses_caller_without_admin_row() {
    let mut g = Guard::new(AdminPermission::PostEvent);
    g.step(GuardEvent::TokenRead(Some("t".to_string())));
    g.step(GuardEvent::ClaimsRead(Some(claims_with(vec![("email", text("student@x.in"))]))));
    assert_eq!(refusal(g.step(GuardEvent::GrantRead(Fetched::NotFound))), (403, "Forbidden".to_string()));
}
