//! Who is calling. A signed-in user is known by the `email` claim of a
//! validated token; an endpoint reserved to administrators is reached only
//! through a [`Guard`], which also checks the caller's permission.
use vstd::prelude::*;
use crate::db::Fetched;
use crate::claims::{Claims, ClaimValue, ClaimView, claims_view, email_claim};
use crate::http::{HttpError, http_error, BAD_REQUEST, FORBIDDEN, INTERNAL_SERVER_ERROR};
use crate::schemas::admin::{AdminPermission, permission_query, permission_query_text};

verus! {

/// A text answer as the contracts speak of it.
pub open spec fn text_reply(r: Result<String, HttpError>) -> Result<Seq<char>, (u16, Seq<char>)> {
    match r {
        Ok(s) => Ok(s@),
        Err(e) => Err(e@),
    }
}

/// A text result with a text error, as the contracts speak of it.
pub open spec fn text_result(r: Result<String, String>) -> Result<Seq<char>, Seq<char>> {
    match r {
        Ok(s) => Ok(s@),
        Err(e) => Err(e@),
    }
}

/// The signed-in user of an endpoint open to every user: the token must
/// validate, and its `email` claim must be text.
pub open spec fn user_reply(validated: Option<Map<Seq<char>, ClaimView>>) -> Result<
    Seq<char>,
    (u16, Seq<char>),
> {
    match validated {
        None => Err((FORBIDDEN, "Couldn't authenticate user"@)),
        Some(c) => match email_claim(c) {
            Some(ClaimView::Text(e)) => Ok(e),
            _ => Err((FORBIDDEN, "Invalid user"@)),
        },
    }
}

/// Identifies the user from the claims of the token, or `None` when the
/// token did not validate.
pub fn authenticate_user(validated: Option<Claims>) -> (r: Result<String, HttpError>)
    ensures
        text_reply(r) == user_reply(claims_view(validated)),
{
    match validated {
        None => Err(http_error(FORBIDDEN, "Couldn't authenticate user")),
        Some(c) => match c.email() {
            Some(ClaimValue::Text(e)) => Ok(e),
            _ => Err(http_error(FORBIDDEN, "Invalid user")),
        },
    }
}

/// The address whose permissions a check reads: that of the validated
/// token, or the reason why there is none.
pub open spec fn grant_email_result(validated: Option<Map<Seq<char>, ClaimView>>) -> Result<
    Seq<char>,
    Seq<char>,
> {
    match validated {
        None => Err("Could not authorize user"@),
        Some(c) => match email_claim(c) {
            Some(ClaimView::Text(e)) => Ok(e),
            _ => Err("Invalid user"@),
        },
    }
}

/// The address whose permissions a check reads.
pub fn grant_email(validated: Option<Claims>) -> (r: Result<String, String>)
    ensures
        text_result(r) == grant_email_result(claims_view(validated)),
{
    match validated {
        None => Err(String::from_str("Could not authorize user")),
        Some(c) => match c.email() {
            Some(ClaimValue::Text(e)) => Ok(e),
            _ => Err(String::from_str("Invalid user")),
        },
    }
}

/// The outcome of a permission check from the flag read in `admins`: the
/// flag of the caller's row; not granted when the caller has no row, being
/// no administrator; an error when the read failed.
pub open spec fn grant_result_spec(flag: Fetched<bool>) -> Result<bool, Seq<char>> {
    match flag {
        Fetched::Row(b) => Ok(b),
        Fetched::NotFound => Ok(false),
        Fetched::Failed => Err("Couldn't check permission in database"@),
    }
}

/// The outcome of a permission check from the flag read in `admins`.
pub fn grant_result(flag: Fetched<bool>) -> (r: Result<bool, String>)
    ensures
        match (r, grant_result_spec(flag)) {
            (Ok(b), Ok(c)) => b == c,
            (Err(e), Err(f)) => e@ == f,
            _ => false,
        },
{
    match flag {
        Fetched::Row(b) => Ok(b),
        Fetched::NotFound => Ok(false),
        Fetched::Failed => Err(String::from_str("Couldn't check permission in database")),
    }
}

/// Where a guarded request stands.
pub enum GuardStage {
    /// The bearer token has not been read yet.
    AwaitingToken,
    /// The token is being validated.
    AwaitingClaims,
    /// The permission of this address is being read.
    AwaitingGrant(Seq<char>),
    /// The handler may run.
    Admitted,
    /// The request was answered with an error.
    Refused,
}

/// What the guard learns at each step.
pub enum GuardEvent {
    /// The bearer token of the request, if it has a well-formed one.
    TokenRead(Option<String>),
    /// The claims of the token, or `None` when it did not validate.
    ClaimsRead(Option<Claims>),
    /// The permission flag read in the caller's row of `admins`, no row for
    /// the caller, or a failed read.
    GrantRead(Fetched<bool>),
}

/// A guard event as the contracts speak of it.
pub enum GuardEventView {
    TokenRead(Option<Seq<char>>),
    ClaimsRead(Option<Map<Seq<char>, ClaimView>>),
    GrantRead(Fetched<bool>),
}

impl View for GuardEvent {
    type V = GuardEventView;

    open spec fn view(&self) -> GuardEventView {
        match self {
            GuardEvent::TokenRead(t) => GuardEventView::TokenRead(
                match t {
                    Some(t) => Some(t@),
                    None => None,
                },
            ),
            GuardEvent::ClaimsRead(c) => GuardEventView::ClaimsRead(claims_view(*c)),
            GuardEvent::GrantRead(g) => GuardEventView::GrantRead(
                match g {
                    Fetched::Row(b) => Fetched::Row(*b),
                    Fetched::NotFound => Fetched::NotFound,
                    Fetched::Failed => Fetched::Failed,
                },
            ),
        }
    }
}

/// What the guard asks to be done next.
pub enum GuardAction {
    /// Validate this token.
    ValidateToken(String),
    /// Run `query` with `email` as its parameter and report the flag read.
    CheckGrant { query: String, email: String },
    /// Run the handler on behalf of this address.
    Admit(String),
    /// Answer the request with this error.
    Refuse(HttpError),
}

/// A guard action as the contracts speak of it.
pub enum GuardActionView {
    ValidateToken(Seq<char>),
    CheckGrant(Seq<char>, Seq<char>),
    Admit(Seq<char>),
    Refuse((u16, Seq<char>)),
}

impl View for GuardAction {
    type V = GuardActionView;

    open spec fn view(&self) -> GuardActionView {
        match self {
            GuardAction::ValidateToken(t) => GuardActionView::ValidateToken(t@),
            GuardAction::CheckGrant { query, email } => GuardActionView::CheckGrant(
                query@,
                email@,
            ),
            GuardAction::Admit(e) => GuardActionView::Admit(e@),
            GuardAction::Refuse(e) => GuardActionView::Refuse(e@),
        }
    }
}

/// Whether `event` is what the guard waits for at `stage`.
pub open spec fn event_fits(stage: GuardStage, event: GuardEventView) -> bool {
    match (stage, event) {
        (GuardStage::AwaitingToken, GuardEventView::TokenRead(_)) => true,
        (GuardStage::AwaitingClaims, GuardEventView::ClaimsRead(_)) => true,
        (GuardStage::AwaitingGrant(_), GuardEventView::GrantRead(_)) => true,
        _ => false,
    }
}

/// One step of the guard of permission `p`: the next stage and the action.
/// A missing token is a bad request; a token that does not validate, a
/// token without a text email, or a failed read of the permission is a
/// server failure; a permission that is not held is forbidden.
pub open spec fn guard_step(p: AdminPermission, stage: GuardStage, event: GuardEventView) -> (
    GuardStage,
    GuardActionView,
) {
    match (stage, event) {
        (GuardStage::AwaitingToken, GuardEventView::TokenRead(t)) => match t {
            None => (GuardStage::Refused, GuardActionView::Refuse((BAD_REQUEST, "Invalid token"@))),
            Some(t) => (GuardStage::AwaitingClaims, GuardActionView::ValidateToken(t)),
        },
        (GuardStage::AwaitingClaims, GuardEventView::ClaimsRead(c)) => match grant_email_result(c) {
            Ok(e) => (GuardStage::AwaitingGrant(e), GuardActionView::CheckGrant(permission_query_text(p), e)),
            Err(_) => (
                GuardStage::Refused,
                GuardActionView::Refuse((INTERNAL_SERVER_ERROR, "Couldn't authenticate user"@)),
            ),
        },
        (GuardStage::AwaitingGrant(e), GuardEventView::GrantRead(g)) => match grant_result_spec(g) {
            Ok(true) => (GuardStage::Admitted, GuardActionView::Admit(e)),
            Ok(false) => (GuardStage::Refused, GuardActionView::Refuse((FORBIDDEN, "Forbidden"@))),
            Err(_) => (
                GuardStage::Refused,
                GuardActionView::Refuse((INTERNAL_SERVER_ERROR, "Couldn't authenticate user"@)),
            ),
        },
        _ => (stage, GuardActionView::Refuse((INTERNAL_SERVER_ERROR, "Couldn't authenticate user"@))),
    }
}

/// The admission of requests to an endpoint reserved to holders of a permission.
pub struct Guard {
    permission: AdminPermission,
    stage: Ghost<GuardStage>,
    email: String,
}

impl Guard {
    /// The permission this guard checks.
    pub closed spec fn permission(&self) -> AdminPermission {
        self.permission
    }

    /// Where the request stands.
    pub closed spec fn stage(&self) -> GuardStage {
        self.stage@
    }

    /// The remembered address is the one whose permission is being read.
    pub closed spec fn wf(&self) -> bool {
        self.stage@ matches GuardStage::AwaitingGrant(e) ==> self.email@ == e
    }

    /// A guard for `permission`, waiting for the bearer token.
    pub fn new(permission: AdminPermission) -> (g: Guard)
        ensures
            g.permission() == permission,
            g.stage() == GuardStage::AwaitingToken,
            g.wf(),
    {
        Guard { permission, stage: Ghost(GuardStage::AwaitingToken), email: String::new() }
    }

    /// Takes in what was learnt and says what to do next.
    pub fn step(&mut self, event: GuardEvent) -> (a: GuardAction)
        requires
            event_fits(old(self).stage(), event@),
            old(self).wf(),
        ensures
            final(self).permission() == old(self).permission(),
            final(self).wf(),
            (final(self).stage(), a@) == guard_step(old(self).permission(), old(self).stage(), event@),
    {
        match event {
            GuardEvent::TokenRead(t) => match t {
                None => {
                    self.stage = Ghost(GuardStage::Refused);
                    GuardAction::Refuse(http_error(BAD_REQUEST, "Invalid token"))
                },
                Some(t) => {
                    self.stage = Ghost(GuardStage::AwaitingClaims);
                    GuardAction::ValidateToken(t)
                },
            },
            GuardEvent::ClaimsRead(c) => match grant_email(c) {
                Ok(e) => {
                    self.stage = Ghost(GuardStage::AwaitingGrant(e@));
                    self.email = e.clone();
                    GuardAction::CheckGrant { query: permission_query(self.permission), email: e }
                },
                Err(_) => {
                    self.stage = Ghost(GuardStage::Refused);
                    GuardAction::Refuse(http_error(INTERNAL_SERVER_ERROR, "Couldn't authenticate user"))
                },
            },
            GuardEvent::GrantRead(g) => match grant_result(g) {
                Ok(true) => {
                    self.stage = Ghost(GuardStage::Admitted);
                    GuardAction::Admit(self.email.clone())
                },
                Ok(false) => {
                    self.stage = Ghost(GuardStage::Refused);
                    GuardAction::Refuse(http_error(FORBIDDEN, "Forbidden"))
                },
                Err(_) => {
                    self.stage = Ghost(GuardStage::Refused);
                    GuardAction::Refuse(http_error(INTERNAL_SERVER_ERROR, "Couldn't authenticate user"))
                },
            },
        }
    }
}

/// The stage and last action of a guard of `p` fed with the bearer token,
/// the claims of the token and the permission flag, each in turn, for as
/// long as the guard has not answered.
pub open spec fn guard_run(
    p: AdminPermission,
    token: Option<Seq<char>>,
    claims: Option<Map<Seq<char>, ClaimView>>,
    flag: Fetched<bool>,
) -> (GuardStage, GuardActionView) {
    let first = guard_step(p, GuardStage::AwaitingToken, GuardEventView::TokenRead(token));
    if first.0 is Refused {
        first
    } else {
        let second = guard_step(p, first.0, GuardEventView::ClaimsRead(claims));
        if second.0 is Refused {
            second
        } else {
            guard_step(p, second.0, GuardEventView::GrantRead(flag))
        }
    }
}

/// A guarded handler runs only for a caller whose token validates, whose
/// `email` claim is text, and whose row in `admins` holds the guarded
/// permission; it then runs on behalf of that address. Every request is
/// answered, and each refusal carries its status: 400 without a bearer
/// token, 403 when the permission is not held (a caller with no row in
/// `admins` included), 500 when the caller cannot be identified or the
/// permission cannot be read.
pub proof fn lemma_guard_admits_only_holders(
    p: AdminPermission,
    token: Option<Seq<char>>,
    claims: Option<Map<Seq<char>, ClaimView>>,
    flag: Fetched<bool>,
)
    ensures
        guard_run(p, token, claims, flag).0 is Admitted || guard_run(p, token, claims, flag).0 is Refused,
        (guard_run(p, token, claims, flag).1 is Admit) <==> (token is Some && claims is Some
            && (email_claim(claims.unwrap()) matches Some(ClaimView::Text(_))) && flag == Fetched::Row(true)),
        guard_run(p, token, claims, flag).1 matches GuardActionView::Admit(e) ==> email_claim(
            claims.unwrap(),
        ) == Some(ClaimView::Text(e)),
        token is None ==> guard_run(p, token, claims, flag).1 == GuardActionView::Refuse(
            (BAD_REQUEST, "Invalid token"@),
        ),
        token is Some && grant_email_result(claims) is Ok && (flag == Fetched::<bool>::Row(false)
            || flag is NotFound) ==> guard_run(
            p,
            token,
            claims,
            flag,
        ).1 == GuardActionView::Refuse((FORBIDDEN, "Forbidden"@)),
        token is Some && (grant_email_result(claims) is Err || flag is Failed) ==> guard_run(
            p,
            token,
            claims,
            flag,
        ).1 == GuardActionView::Refuse((INTERNAL_SERVER_ERROR, "Couldn't authenticate user"@)),
{
}

/// The permission that a guard of `p` reads is the column of `p`, in the
/// row of the address that the token's `email` claim names.
pub proof fn lemma_guard_reads_callers_flag(
    p: AdminPermission,
    t: Seq<char>,
    claims: Map<Seq<char>, ClaimView>,
    e: Seq<char>,
)
    requires
        email_claim(claims) == Some(ClaimView::Text(e)),
    ensures
        guard_step(p, GuardStage::AwaitingToken, GuardEventView::TokenRead(Some(t))).1
            == GuardActionView::ValidateToken(t),
        guard_step(p, GuardStage::AwaitingClaims, GuardEventView::ClaimsRead(Some(claims))).1
            == GuardActionView::CheckGrant(permission_query_text(p), e),
{
}

} // verus!
