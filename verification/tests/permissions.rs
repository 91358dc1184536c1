use campus_backend::schemas::admin::{
    admin_columns, insert_admin_query, permission_query, select_admin_query, select_admins_query,
    AdminEntry, AdminPermission, AdminPermissions,
};

#[test]
fn column_names_are_snake_case_variant_names() {
    let expected = [
        "get_admin",
        "post_admin",
        "put_admin",
        "post_bus_schedule",
        "put_bus_schedule",
        "post_event",
        "put_event",
        "post_mess_menu",
        "post_outlet",
        "delete_outlet",
        "put_outlet",
        "post_announcement",
    ];
    let all = AdminPermission::all();
    assert_eq!(all.len(), expected.len());
    for (p, name) in all.iter().zip(expected.iter()) {
        assert_eq!(p.column_name(), *name);
    }
    assert_eq!(AdminPermission::PostBusSchedule.column_name(), "post_bus_schedule");
}

#[test]
fn every_permission_listed_once() {
    let all = AdminPermission::all();
    for i in 0..all.len() {
        for j in 0..all.len() {
            assert_eq!(i == j, all[i] == all[j]);
            assert_eq!(i == j, all[i].column_name() == all[j].column_name());
        }
    }
}

fn only(p: AdminPermission) -> AdminPermissions {
    let mut ps = AdminPermissions::default();
    match p {
        AdminPermission::GetAdmin => ps.get_admin = true,
        AdminPermission::PostAdmin => ps.post_admin = true,
        AdminPermission::PutAdmin => ps.put_admin = true,
        AdminPermission::PostBusSchedule => ps.post_bus_schedule = true,
        AdminPermission::PutBusSchedule => ps.put_bus_schedule = true,
        AdminPermission::PostEvent => ps.post_event = true,
        AdminPermission::PutEvent => ps.put_event = true,
        AdminPermission::PostMessMenu => ps.post_mess_menu = true,
        AdminPermission::PostOutlet => ps.post_outlet = true,
        AdminPermission::DeleteOutlet => ps.delete_outlet = true,
        AdminPermission::PutOutlet => ps.put_outlet = true,
        AdminPermission::PostAnnouncement => ps.post_announcement = true,
    }
    ps
}

#[test]
fn allows_reads_the_flag_of_the_permission() {
    for p in AdminPermission::all() {
        let ps = only(p);
        for q in AdminPermission::all() {
            assert_eq!(ps.allows(q), p == q);
        }
        let flags = ps.flags();
        let all = AdminPermission::all();
        for i in 0..flags.len() {
            assert_eq!(flags[i], all[i] == p);
        }
    }
}

#[test]
fn default_entry_holds_nothing() {
    let e = AdminEntry::default();
    assert_eq!(e.email, "");
    for p in AdminPermission::all() {
        assert!(!e.permissions.allows(p));
    }
    assert_eq!(AdminPermissions::default().flags(), vec![false; 12]);
}

#[test]
fn permission_query_reads_the_column() {
    assert_eq!(
        permission_query(AdminPermission::PostEvent),
        "SELECT post_event FROM admins WHERE email = $1"
    );
    assert_eq!(
        permission_query(AdminPermission::DeleteOutlet),
        "SELECT delete_outlet FROM admins WHERE email = $1"
    );
}

#[test]
fn admin_statements_name_every_column() {
    let cols = "email, get_admin, post_admin, put_admin, post_bus_schedule, put_bus_schedule, post_event, put_event, post_mess_menu, post_outlet, delete_outlet, put_outlet, post_announcement";
    assert_eq!(admin_columns(), cols);
    assert_eq!(select_admins_query(), format!("SELECT {cols} FROM admins"));
    assert_eq!(select_admin_query(), format!("SELECT {cols} FROM admins WHERE email = $1"));
    assert_eq!(
        insert_admin_query(),
        format!("INSERT INTO admins({cols}) VALUES($1, $2, $3, $4, $5, $6, $7, $8, $9, $10, $11, $12, $13)")
    );
}
