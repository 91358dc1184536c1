//! Answers of the mess menu endpoints.
use vstd::prelude::*;
use crate::db::{Fetched, fetched_reply, reply_fetched, reply_view};
use crate::http::{HttpError, http_error, INTERNAL_SERVER_ERROR};

verus! {

/// The mess menu, or 500 when it cannot be read.
pub fn get_mess_menu_reply<T>(outcome: Fetched<T>) -> (r: Result<T, HttpError>)
    ensures
        reply_view(r) == fetched_reply(
            outcome,
            (INTERNAL_SERVER_ERROR, "Couldn't get mess_menu from database"@),
            (INTERNAL_SERVER_ERROR, "Couldn't get mess_menu from database"@),
        ),
{
    reply_fetched(
        outcome,
        INTERNAL_SERVER_ERROR,
        "Couldn't get mess_menu from database",
        INTERNAL_SERVER_ERROR,
        "Couldn't get mess_menu from database",
    )
}

/// What a replacement of the whole mess menu asks to be done next, within
/// one transaction.
pub enum MenuAction {
    /// Open the transaction.
    BeginTransaction,
    /// Empty the menu table.
    ClearMenu,
    /// Insert the entry at this index of the new menu.
    InsertEntry(usize),
    /// Commit the transaction.
    Commit,
    /// Answer the request (success: the new menu is in place).
    Finish(Result<(), HttpError>),
}

/// A menu action as the contracts speak of it.
pub enum MenuActionView {
    BeginTransaction,
    ClearMenu,
    InsertEntry(nat),
    Commit,
    Finish(Result<(), (u16, Seq<char>)>),
}

impl View for MenuAction {
    type V = MenuActionView;

    open spec fn view(&self) -> MenuActionView {
        match self {
            MenuAction::BeginTransaction => MenuActionView::BeginTransaction,
            MenuAction::ClearMenu => MenuActionView::ClearMenu,
            MenuAction::InsertEntry(i) => MenuActionView::InsertEntry(*i as nat),
            MenuAction::Commit => MenuActionView::Commit,
            MenuAction::Finish(Ok(())) => MenuActionView::Finish(Ok(())),
            MenuAction::Finish(Err(e)) => MenuActionView::Finish(Err(e@)),
        }
    }
}

/// The action taken at `position` of the replacement of a menu of `total`
/// entries: open, clear, insert each entry in turn, commit.
pub open spec fn menu_action_at(total: nat, position: nat) -> MenuActionView {
    if position == 0 {
        MenuActionView::BeginTransaction
    } else if position == 1 {
        MenuActionView::ClearMenu
    } else if position < total + 2 {
        MenuActionView::InsertEntry((position - 2) as nat)
    } else {
        MenuActionView::Commit
    }
}

/// The answer when the action at `position` failed with `error`.
pub open spec fn menu_failure(total: nat, position: nat, error: Seq<char>) -> (u16, Seq<char>) {
    if position == 0 {
        (INTERNAL_SERVER_ERROR, "Failed to connect to database"@)
    } else if position == 1 {
        (INTERNAL_SERVER_ERROR, "Couldn't clear old mess_menu"@)
    } else if position < total + 2 {
        (INTERNAL_SERVER_ERROR, "Couldn't update mess_menu to database"@)
    } else {
        (INTERNAL_SERVER_ERROR, "Failed to commit: "@ + error)
    }
}

/// One step of the replacement, from the outcome of the action at
/// `position`: the next position (`None` once answered) and the next action.
pub open spec fn menu_step(total: nat, position: nat, outcome: Result<(), Seq<char>>) -> (
    Option<nat>,
    MenuActionView,
) {
    match outcome {
        Ok(()) => if position < total + 2 {
            (Some(position + 1), menu_action_at(total, position + 1))
        } else {
            (None, MenuActionView::Finish(Ok(())))
        },
        Err(e) => (None, MenuActionView::Finish(Err(menu_failure(total, position, e)))),
    }
}

/// The replacement of the mess menu by a new one of `total` entries.
pub struct MenuReplacement {
    total: usize,
    position: usize,
    finished: bool,
}

impl MenuReplacement {
    /// The number of entries of the new menu.
    pub closed spec fn total(&self) -> nat {
        self.total as nat
    }

    /// The position of the action whose outcome is awaited, or `None` once
    /// the request is answered.
    pub closed spec fn position(&self) -> Option<nat> {
        if self.finished {
            None
        } else {
            Some(self.position as nat)
        }
    }

    /// Starts the replacement by a menu of `total` entries.
    pub fn start(total: usize) -> (r: (MenuReplacement, MenuAction))
        requires
            total + 2 <= usize::MAX,
        ensures
            r.0.total() == total,
            r.0.position() == Some(0nat),
            r.1@ == menu_action_at(total as nat, 0),
    {
        (MenuReplacement { total, position: 0, finished: false }, MenuAction::BeginTransaction)
    }

    /// Takes in the outcome of the last action (an error carries its text)
    /// and says what to do next.
    pub fn step(&mut self, outcome: Result<(), String>) -> (a: MenuAction)
        requires
            old(self).position() is Some,
            old(self).total() + 2 <= usize::MAX,
            old(self).position().unwrap() <= old(self).total() + 2,
        ensures
            final(self).total() == old(self).total(),
            (final(self).position(), a@) == menu_step(
                old(self).total(),
                old(self).position().unwrap(),
                match outcome {
                    Ok(()) => Ok(()),
                    Err(e) => Err(e@),
                },
            ),
            final(self).position() matches Some(p) ==> p <= final(self).total() + 2,
    {
        match outcome {
            Ok(()) => {
                if self.position < self.total + 2 {
                    self.position = self.position + 1;
                    if self.position == 1 {
                        MenuAction::ClearMenu
                    } else if self.position < self.total + 2 {
                        MenuAction::InsertEntry(self.position - 2)
                    } else {
                        MenuAction::Commit
                    }
                } else {
                    self.finished = true;
                    MenuAction::Finish(Ok(()))
                }
            },
            Err(e) => {
                self.finished = true;
                let failure = if self.position == 0 {
                    http_error(INTERNAL_SERVER_ERROR, "Failed to connect to database")
                } else if self.position == 1 {
                    http_error(INTERNAL_SERVER_ERROR, "Couldn't clear old mess_menu")
                } else if self.position < self.total + 2 {
                    http_error(INTERNAL_SERVER_ERROR, "Couldn't update mess_menu to database")
                } else {
                    let mut message = String::from_str("Failed to commit: ");
                    message.append(e.as_str());
                    HttpError { status: INTERNAL_SERVER_ERROR, message }
                };
                MenuAction::Finish(Err(failure))
            },
        }
    }
}

/// A replacement that meets no failure opens the transaction, clears the
/// table, inserts every entry of the new menu once, in order, commits, and
/// only then answers with success. An answer of success comes only after
/// the commit succeeded; any failure is answered with a 500 before the
/// commit, so the old menu stays.
pub proof fn lemma_menu_replaced_whole_or_not_at_all(
    total: nat,
    position: nat,
    outcome: Result<(), Seq<char>>,
)
    requires
        position <= total + 2,
    ensures
        menu_action_at(total, 0) == MenuActionView::BeginTransaction,
        menu_action_at(total, 1) == MenuActionView::ClearMenu,
        forall|i: nat| i < total ==> #[trigger] menu_action_at(total, i + 2) == MenuActionView::InsertEntry(i),
        menu_action_at(total, total + 2) == MenuActionView::Commit,
        position < total + 2 ==> menu_step(total, position, Ok(())) == (
            Some(position + 1),
            menu_action_at(total, position + 1),
        ),
        menu_step(total, position, outcome).1 == MenuActionView::Finish(Ok(())) <==> (position
            == total + 2 && outcome is Ok),
        outcome is Err ==> menu_step(total, position, outcome).0 is None,
        outcome is Err ==> (menu_step(total, position, outcome).1 matches MenuActionView::Finish(
            Err(e),
        ) && e.0 == INTERNAL_SERVER_ERROR),
{
}

} // verus!
