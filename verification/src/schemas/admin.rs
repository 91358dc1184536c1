//! Administrators and what each of them may do. Every permission is a
//! boolean column of the `admins` table, named after the permission.
use vstd::prelude::*;
use crate::decimal::{decimal, u64_to_decimal};

verus! {

/// A permission that an administrator may hold.
#[derive(Clone, Copy, Debug, PartialEq, Eq, Structural)]
pub enum AdminPermission {
    GetAdmin,
    PostAdmin,
    PutAdmin,
    PostBusSchedule,
    PutBusSchedule,
    PostEvent,
    PutEvent,
    PostMessMenu,
    PostOutlet,
    DeleteOutlet,
    PutOutlet,
    PostAnnouncement,
}

/// The name of a permission in snake case, which is also the name of its
/// column in the `admins` table.
pub open spec fn column(p: AdminPermission) -> Seq<char> {
    match p {
        AdminPermission::GetAdmin => "get_admin"@,
        AdminPermission::PostAdmin => "post_admin"@,
        AdminPermission::PutAdmin => "put_admin"@,
        AdminPermission::PostBusSchedule => "post_bus_schedule"@,
        AdminPermission::PutBusSchedule => "put_bus_schedule"@,
        AdminPermission::PostEvent => "post_event"@,
        AdminPermission::PutEvent => "put_event"@,
        AdminPermission::PostMessMenu => "post_mess_menu"@,
        AdminPermission::PostOutlet => "post_outlet"@,
        AdminPermission::DeleteOutlet => "delete_outlet"@,
        AdminPermission::PutOutlet => "put_outlet"@,
        AdminPermission::PostAnnouncement => "post_announcement"@,
    }
}

/// Every permission, once each, in the order of the table's columns.
pub open spec fn all_permissions() -> Seq<AdminPermission> {
    seq![
        AdminPermission::GetAdmin,
        AdminPermission::PostAdmin,
        AdminPermission::PutAdmin,
        AdminPermission::PostBusSchedule,
        AdminPermission::PutBusSchedule,
        AdminPermission::PostEvent,
        AdminPermission::PutEvent,
        AdminPermission::PostMessMenu,
        AdminPermission::PostOutlet,
        AdminPermission::DeleteOutlet,
        AdminPermission::PutOutlet,
        AdminPermission::PostAnnouncement,
    ]
}

impl AdminPermission {
    /// The permission's name in snake case: its column in `admins`.
    pub fn column_name(&self) -> (r: &'static str)
        ensures
            r@ == column(*self),
    {
        match self {
            AdminPermission::GetAdmin => "get_admin",
            AdminPermission::PostAdmin => "post_admin",
            AdminPermission::PutAdmin => "put_admin",
            AdminPermission::PostBusSchedule => "post_bus_schedule",
            AdminPermission::PutBusSchedule => "put_bus_schedule",
            AdminPermission::PostEvent => "post_event",
            AdminPermission::PutEvent => "put_event",
            AdminPermission::PostMessMenu => "post_mess_menu",
            AdminPermission::PostOutlet => "post_outlet",
            AdminPermission::DeleteOutlet => "delete_outlet",
            AdminPermission::PutOutlet => "put_outlet",
            AdminPermission::PostAnnouncement => "post_announcement",
        }
    }

    /// Every permission, once each, in the order of the table's columns.
    pub fn all() -> (r: Vec<AdminPermission>)
        ensures
            r@ == all_permissions(),
    {
        let r = vec![
            AdminPermission::GetAdmin,
            AdminPermission::PostAdmin,
            AdminPermission::PutAdmin,
            AdminPermission::PostBusSchedule,
            AdminPermission::PutBusSchedule,
            AdminPermission::PostEvent,
            AdminPermission::PutEvent,
            AdminPermission::PostMessMenu,
            AdminPermission::PostOutlet,
            AdminPermission::DeleteOutlet,
            AdminPermission::PutOutlet,
            AdminPermission::PostAnnouncement,
        ];
        assert(r@ =~= all_permissions());
        r
    }
}

/// Reads a permission back from its column name, by the length of the name
/// and the letters where names of the same length differ.
pub open spec fn permission_of_column(s: Seq<char>) -> AdminPermission {
    if s.len() == 9 {
        if s[1] == 'e' {
            AdminPermission::GetAdmin
        } else if s[4] == 'a' {
            AdminPermission::PutAdmin
        } else {
            AdminPermission::PutEvent
        }
    } else if s.len() == 10 {
        if s[1] == 'u' {
            AdminPermission::PutOutlet
        } else if s[5] == 'a' {
            AdminPermission::PostAdmin
        } else {
            AdminPermission::PostEvent
        }
    } else if s.len() == 11 {
        AdminPermission::PostOutlet
    } else if s.len() == 13 {
        AdminPermission::DeleteOutlet
    } else if s.len() == 14 {
        AdminPermission::PostMessMenu
    } else if s.len() == 16 {
        AdminPermission::PutBusSchedule
    } else if s[5] == 'b' {
        AdminPermission::PostBusSchedule
    } else {
        AdminPermission::PostAnnouncement
    }
}

proof fn lemma_column_read_back(p: AdminPermission)
    ensures
        permission_of_column(column(p)) == p,
{
    match p {
        AdminPermission::GetAdmin => reveal_strlit("get_admin"),
        AdminPermission::PostAdmin => reveal_strlit("post_admin"),
        AdminPermission::PutAdmin => reveal_strlit("put_admin"),
        AdminPermission::PostBusSchedule => reveal_strlit("post_bus_schedule"),
        AdminPermission::PutBusSchedule => reveal_strlit("put_bus_schedule"),
        AdminPermission::PostEvent => reveal_strlit("post_event"),
        AdminPermission::PutEvent => reveal_strlit("put_event"),
        AdminPermission::PostMessMenu => reveal_strlit("post_mess_menu"),
        AdminPermission::PostOutlet => reveal_strlit("post_outlet"),
        AdminPermission::DeleteOutlet => reveal_strlit("delete_outlet"),
        AdminPermission::PutOutlet => reveal_strlit("put_outlet"),
        AdminPermission::PostAnnouncement => reveal_strlit("post_announcement"),
    }
}

/// Distinct permissions have distinct names, so a permission check reads
/// the column of that permission and of no other.
pub proof fn lemma_column_names_distinct(p: AdminPermission, q: AdminPermission)
    requires
        column(p) == column(q),
    ensures
        p == q,
{
    lemma_column_read_back(p);
    lemma_column_read_back(q);
}

/// The permission list names every permission exactly once.
pub proof fn lemma_all_permissions_once_each(p: AdminPermission)
    ensures
        all_permissions().contains(p),
        forall|i: int, j: int|
            0 <= i < j < all_permissions().len() ==> all_permissions()[i] != all_permissions()[j],
{
    let s = all_permissions();
    match p {
        AdminPermission::GetAdmin => assert(s[0] == p),
        AdminPermission::PostAdmin => assert(s[1] == p),
        AdminPermission::PutAdmin => assert(s[2] == p),
        AdminPermission::PostBusSchedule => assert(s[3] == p),
        AdminPermission::PutBusSchedule => assert(s[4] == p),
        AdminPermission::PostEvent => assert(s[5] == p),
        AdminPermission::PutEvent => assert(s[6] == p),
        AdminPermission::PostMessMenu => assert(s[7] == p),
        AdminPermission::PostOutlet => assert(s[8] == p),
        AdminPermission::DeleteOutlet => assert(s[9] == p),
        AdminPermission::PutOutlet => assert(s[10] == p),
        AdminPermission::PostAnnouncement => assert(s[11] == p),
    }
}

} // verus!

verus! {

/// The permissions of one administrator, one flag per permission.
#[derive(Clone)]
pub struct AdminPermissions {
    pub get_admin: bool,
    pub post_admin: bool,
    pub put_admin: bool,
    pub post_bus_schedule: bool,
    pub put_bus_schedule: bool,
    pub post_event: bool,
    pub put_event: bool,
    pub post_mess_menu: bool,
    pub post_outlet: bool,
    pub delete_outlet: bool,
    pub put_outlet: bool,
    pub post_announcement: bool,
}

/// Whether a set of permissions holds `p`: the flag named after `p`.
pub open spec fn grants(ps: AdminPermissions, p: AdminPermission) -> bool {
    match p {
        AdminPermission::GetAdmin => ps.get_admin,
        AdminPermission::PostAdmin => ps.post_admin,
        AdminPermission::PutAdmin => ps.put_admin,
        AdminPermission::PostBusSchedule => ps.post_bus_schedule,
        AdminPermission::PutBusSchedule => ps.put_bus_schedule,
        AdminPermission::PostEvent => ps.post_event,
        AdminPermission::PutEvent => ps.put_event,
        AdminPermission::PostMessMenu => ps.post_mess_menu,
        AdminPermission::PostOutlet => ps.post_outlet,
        AdminPermission::DeleteOutlet => ps.delete_outlet,
        AdminPermission::PutOutlet => ps.put_outlet,
        AdminPermission::PostAnnouncement => ps.post_announcement,
    }
}

impl Default for AdminPermissions {
    /// No permission at all, as a new row of `admins` has.
    fn default() -> (r: Self)
        ensures
            forall|p: AdminPermission| !#[trigger] grants(r, p),
    {
        AdminPermissions {
            get_admin: false,
            post_admin: false,
            put_admin: false,
            post_bus_schedule: false,
            put_bus_schedule: false,
            post_event: false,
            put_event: false,
            post_mess_menu: false,
            post_outlet: false,
            delete_outlet: false,
            put_outlet: false,
            post_announcement: false,
        }
    }
}

impl AdminPermissions {
    /// Whether these permissions hold `p`.
    pub fn allows(&self, p: AdminPermission) -> (r: bool)
        ensures
            r == grants(*self, p),
    {
        match p {
            AdminPermission::GetAdmin => self.get_admin,
            AdminPermission::PostAdmin => self.post_admin,
            AdminPermission::PutAdmin => self.put_admin,
            AdminPermission::PostBusSchedule => self.post_bus_schedule,
            AdminPermission::PutBusSchedule => self.put_bus_schedule,
            AdminPermission::PostEvent => self.post_event,
            AdminPermission::PutEvent => self.put_event,
            AdminPermission::PostMessMenu => self.post_mess_menu,
            AdminPermission::PostOutlet => self.post_outlet,
            AdminPermission::DeleteOutlet => self.delete_outlet,
            AdminPermission::PutOutlet => self.put_outlet,
            AdminPermission::PostAnnouncement => self.post_announcement,
        }
    }

    /// The flags in the order of the table's columns, as they are stored.
    pub fn flags(&self) -> (r: Vec<bool>)
        ensures
            r@.len() == all_permissions().len(),
            forall|i: int| 0 <= i < r@.len() ==> r@[i] == grants(*self, all_permissions()[i]),
    {
        let perms = AdminPermission::all();
        let mut r: Vec<bool> = Vec::new();
        for i in 0..perms.len()
            invariant
                perms@ == all_permissions(),
                r@.len() == i,
                forall|j: int| 0 <= j < i ==> r@[j] == grants(*self, all_permissions()[j]),
        {
            r.push(self.allows(perms[i]));
        }
        r
    }
}

/// An administrator: an email address and its permissions.
pub struct AdminEntry {
    pub email: String,
    pub permissions: AdminPermissions,
}

impl Default for AdminEntry {
    /// An empty address with no permission.
    fn default() -> (r: Self)
        ensures
            r.email@ == Seq::<char>::empty(),
            forall|p: AdminPermission| !#[trigger] grants(r.permissions, p),
    {
        AdminEntry { email: String::new(), permissions: AdminPermissions::default() }
    }
}

/// The column list of `admins`: `email`, then one column per permission.
pub open spec fn columns_list(s: Seq<AdminPermission>) -> Seq<char>
    decreases s.len(),
{
    if s.len() == 0 {
        "email"@
    } else {
        columns_list(s.drop_last()) + ", "@ + column(s.last())
    }
}

/// The placeholders `$1, $2, ..., $n` of a statement with `n` parameters.
pub open spec fn placeholders(n: nat) -> Seq<char>
    decreases n,
{
    if n == 0 {
        Seq::empty()
    } else if n == 1 {
        "$"@ + decimal(1)
    } else {
        placeholders((n - 1) as nat) + ", $"@ + decimal(n as int)
    }
}

/// The query that reads one permission of the administrator `$1`.
pub open spec fn permission_query_text(p: AdminPermission) -> Seq<char> {
    "SELECT "@ + column(p) + " FROM admins WHERE email = $1"@
}

/// Builds the query that reads permission `p` of the administrator `$1`.
pub fn permission_query(p: AdminPermission) -> (r: String)
    ensures
        r@ == permission_query_text(p),
{
    let mut r = String::from_str("SELECT ");
    r.append(p.column_name());
    r.append(" FROM admins WHERE email = $1");
    r
}

/// The column list of `admins`, comma separated.
pub fn admin_columns() -> (r: String)
    ensures
        r@ == columns_list(all_permissions()),
{
    let perms = AdminPermission::all();
    let mut r = String::from_str("email");
    for i in 0..perms.len()
        invariant
            perms@ == all_permissions(),
            r@ == columns_list(all_permissions().take(i as int)),
    {
        r.append(", ");
        r.append(perms[i].column_name());
        assert(all_permissions().take(i + 1).drop_last() =~= all_permissions().take(i as int));
    }
    assert(all_permissions().take(perms.len() as int) =~= all_permissions());
    r
}

/// The query that reads every administrator.
pub fn select_admins_query() -> (r: String)
    ensures
        r@ == "SELECT "@ + columns_list(all_permissions()) + " FROM admins"@,
{
    let mut r = String::from_str("SELECT ");
    r.append(admin_columns().as_str());
    r.append(" FROM admins");
    r
}

/// The query that reads the administrator `$1`.
pub fn select_admin_query() -> (r: String)
    ensures
        r@ == "SELECT "@ + columns_list(all_permissions()) + " FROM admins WHERE email = $1"@,
{
    let mut r = String::from_str("SELECT ");
    r.append(admin_columns().as_str());
    r.append(" FROM admins WHERE email = $1");
    r
}

/// Builds the placeholders `$1, $2, ..., $n`.
pub fn placeholder_list(n: u64) -> (r: String)
    requires
        1 <= n,
    ensures
        r@ == placeholders(n as nat),
{
    proof {
        reveal_strlit("$");
    }
    let mut r = String::from_str("$");
    r.append(u64_to_decimal(1).as_str());
    assert(r@ =~= placeholders(1));
    let mut k: u64 = 1;
    while k < n
        invariant
            1 <= k <= n,
            r@ == placeholders(k as nat),
        decreases n - k,
    {
        k = k + 1;
        r.append(", $");
        r.append(u64_to_decimal(k).as_str());
        assert(r@ =~= placeholders(k as nat));
    }
    r
}

/// The statement that adds an administrator: its email is `$1`, and the
/// flags follow as `$2, $3, ...` in the order of `AdminPermission::all`.
pub fn insert_admin_query() -> (r: String)
    ensures
        r@ == "INSERT INTO admins("@ + columns_list(all_permissions()) + ") VALUES("@
            + placeholders(all_permissions().len() + 1) + ")"@,
{
    let mut r = String::from_str("INSERT INTO admins(");
    r.append(admin_columns().as_str());
    r.append(") VALUES(");
    r.append(placeholder_list(13).as_str());
    r.append(")");
    r
}

} // verus!
