//! Carrying out a list of statements as a whole.
use vstd::prelude::*;

use super::tables::{Database, Statement};
use crate::text;

verus! {

// ---------------------------------------------------------------------------
// Steps
// ---------------------------------------------------------------------------
/// What the database is to do next; a statement is given by its place in the list.
#[derive(Debug, Clone, Copy, PartialEq, Eq, Structural)]
pub enum Action {
    Begin,
    Execute(usize),
    Commit,
    RollBack,
}

/// What follows an action on a list of `total` statements: the statements in order and then the
/// commit, or the way back as soon as one of these fails.
pub open spec fn next_action(action: Action, done: bool, total: nat) -> Option<Action> {
    match action {
        Action::Begin => if !done {
            None
        } else if total == 0 {
            Some(Action::Commit)
        } else {
            Some(Action::Execute(0))
        },
        Action::Execute(i) => if !done {
            Some(Action::RollBack)
        } else if i + 1 < total && i < usize::MAX {
            Some(Action::Execute((i + 1) as usize))
        } else {
            Some(Action::Commit)
        },
        Action::Commit => if done {
            None
        } else {
            Some(Action::RollBack)
        },
        Action::RollBack => None,
    }
}

/// What to report when an action fails with the database's error text `e`.
pub open spec fn action_fault(action: Action, plan: Seq<Statement>, e: Seq<char>) -> Seq<char> {
    match action {
        Action::Execute(i) => if i < plan.len() {
            super::tables::failure_prefix(plan[i as int]) + e
        } else {
            e
        },
        Action::Commit => "Failed to commit transaction: "@ + e,
        Action::Begin | Action::RollBack => e,
    }
}

/// A list of statements on its way: what is to be done next, and the first fault.
#[derive(Debug)]
pub struct Transaction {
    pub plan: Vec<Statement>,
    pub action: Option<Action>,
    pub fault: Option<String>,
}

impl Transaction {
    /// A list of which nothing was done yet.
    pub fn new(plan: Vec<Statement>) -> (r: Self)
        ensures
            r.plan == plan,
            r.action == Some(Action::Begin),
            r.fault is None,
    {
        Transaction { plan, action: Some(Action::Begin), fault: None }
    }

    /// Takes over what came of the action that was to be done.
    pub fn report(&mut self, outcome: Result<(), String>)
        ensures
            final(self).plan == old(self).plan,
            match old(self).action {
                Some(action) => {
                    &&& final(self).action == next_action(
                        action,
                        outcome is Ok,
                        old(self).plan@.len(),
                    )
                    &&& text::option_view(final(self).fault) == match (
                        text::option_view(old(self).fault),
                        outcome,
                    ) {
                        (None, Err(e)) => Some(action_fault(action, old(self).plan@, e@)),
                        (before, _) => before,
                    }
                },
                None => *final(self) == *old(self),
            },
    {
        let action = match self.action {
            Some(action) => action,
            None => {
                return;
            },
        };
        let total: usize = self.plan.len();
        let done = outcome.is_ok();
        if self.fault.is_none() {
            if let Err(e) = &outcome {
                self.fault = Some(
                    match action {
                        Action::Execute(i) => if i < total {
                            self.plan[i].failure(e)
                        } else {
                            e.clone()
                        },
                        Action::Commit => text::join2("Failed to commit transaction: ", e),
                        Action::Begin | Action::RollBack => e.clone(),
                    },
                );
            }
        }
        self.action = match action {
            Action::Begin => if !done {
                None
            } else if total == 0 {
                Some(Action::Commit)
            } else {
                Some(Action::Execute(0))
            },
            Action::Execute(i) => if !done {
                Some(Action::RollBack)
            } else if i < total && i + 1 < total {
                Some(Action::Execute(i + 1))
            } else {
                Some(Action::Commit)
            },
            Action::Commit => if done {
                None
            } else {
                Some(Action::RollBack)
            },
            Action::RollBack => None,
        };
    }

    /// What came of the whole list.
    pub fn finish(self) -> (r: Result<(), String>)
        ensures
            match r {
                Ok(_) => self.fault is None,
                Err(e) => self.fault == Some(e),
            },
    {
        match self.fault {
            Some(e) => Err(e),
            None => Ok(()),
        }
    }
}

// ---------------------------------------------------------------------------
// What the steps do
// ---------------------------------------------------------------------------
/// How far an action is from the end.
pub open spec fn distance(action: Option<Action>, total: nat) -> nat {
    match action {
        None => 0,
        Some(Action::RollBack) => 1,
        Some(Action::Commit) => 2,
        Some(Action::Execute(i)) => if i < total {
            (3 + total - i) as nat
        } else {
            3
        },
        Some(Action::Begin) => 4 + total,
    }
}

/// The tables after the action and all that follow it, and whether all of them were done. `kept`
/// are the tables as they were before, `work` those that the statements so far have made of them.
/// An action is done where no constraint refuses it and nothing outside does; `works` says of
/// which actions the latter holds.
pub open spec fn carried_on(
    kept: Database,
    work: Database,
    action: Option<Action>,
    plan: Seq<Statement>,
    works: spec_fn(Action) -> bool,
) -> (Database, bool)
    decreases distance(action, plan.len()),
{
    match action {
        None => (kept, true),
        Some(action) => {
            let failed = (
                carried_on(kept, kept, next_action(action, false, plan.len()), plan, works).0,
                false,
            );
            let next = next_action(action, true, plan.len());
            if !works(action) {
                failed
            } else {
                match action {
                    Action::Begin => carried_on(kept, kept, next, plan, works),
                    Action::Execute(i) => match super::tables::apply(work, plan[i as int]) {
                        Some(after) => carried_on(kept, after, next, plan, works),
                        None => failed,
                    },
                    Action::Commit => carried_on(work, work, next, plan, works),
                    Action::RollBack => carried_on(kept, kept, next, plan, works),
                }
            }
        },
    }
}

/// The tables after a list of statements was carried out step by step, and whether it was done.
pub open spec fn carried_out(
    db: Database,
    plan: Seq<Statement>,
    works: spec_fn(Action) -> bool,
) -> (Database, bool) {
    carried_on(db, db, Some(Action::Begin), plan, works)
}

proof fn lemma_rolled_back(
    kept: Database,
    work: Database,
    plan: Seq<Statement>,
    works: spec_fn(Action) -> bool,
)
    ensures
        carried_on(kept, work, Some(Action::RollBack), plan, works).0 == kept,
{
    reveal_with_fuel(carried_on, 3);
}

proof fn lemma_from_statement(
    kept: Database,
    work: Database,
    i: usize,
    plan: Seq<Statement>,
    works: spec_fn(Action) -> bool,
)
    requires
        i < plan.len() <= usize::MAX,
        super::tables::apply_all(kept, plan.take(i as int)) == Some(work),
    ensures
        ({
            let (after, done) = carried_on(kept, work, Some(Action::Execute(i)), plan, works);
            &&& done ==> super::tables::apply_all(kept, plan) == Some(after)
            &&& !done ==> after == kept
            &&& done == ((forall|j: usize|
                i <= j < plan.len() ==> #[trigger] works(Action::Execute(j))) && works(
                Action::Commit,
            ) && super::tables::apply_all(kept, plan) is Some)
        }),
    decreases plan.len() - i,
{
    let total = plan.len();
    let here = Action::Execute(i);
    lemma_rolled_back(kept, kept, plan, works);
    assert(plan.take(i + 1).drop_last() =~= plan.take(i as int));
    assert(plan.take(i + 1).last() == plan[i as int]);
    assert(super::tables::apply_all(kept, plan.take(i + 1)) == super::tables::apply(
        work,
        plan[i as int],
    ));
    assert(plan =~= plan.take(i + 1) + plan.skip(i + 1));
    super::tables::plans_compose(kept, plan.take(i + 1), plan.skip(i + 1));
    if works(here) {
        if let Some(after) = super::tables::apply(work, plan[i as int]) {
            if i + 1 < total {
                lemma_from_statement(kept, after, (i + 1) as usize, plan, works);
            } else {
                assert(plan.take(i + 1) =~= plan);
                assert(carried_on(after, after, None, plan, works) == (after, true));
                assert(carried_on(kept, after, Some(Action::Commit), plan, works) == if works(
                    Action::Commit,
                ) {
                    (after, true)
                } else {
                    (kept, false)
                });
            }
        }
    }
}

// ---------------------------------------------------------------------------
// Laws
// ---------------------------------------------------------------------------
/// A list of statements is carried out as a whole or not at all: where it is done, the tables are
/// those that all its statements make; where it is not, whatever failed, every table is as it was.
/// It is done exactly where nothing outside fails and no constraint refuses one of the statements.
pub proof fn plans_are_carried_out_whole(
    db: Database,
    plan: Seq<Statement>,
    works: spec_fn(Action) -> bool,
)
    requires
        plan.len() <= usize::MAX,
    ensures
        ({
            let (after, done) = carried_out(db, plan, works);
            &&& done ==> super::tables::apply_all(db, plan) == Some(after)
            &&& !done ==> after == db
            &&& done == (works(Action::Begin) && (forall|j: usize|
                j < plan.len() ==> #[trigger] works(Action::Execute(j))) && works(Action::Commit)
                && super::tables::apply_all(db, plan) is Some)
        }),
{
    assert(plan.take(0) =~= Seq::<Statement>::empty());
    assert(super::tables::apply_all(db, plan.take(0)) == Some(db));
    lemma_rolled_back(db, db, plan, works);
    assert(carried_on(db, db, None, plan, works) == (db, true));
    if plan.len() > 0 {
        lemma_from_statement(db, db, 0, plan, works);
    } else {
        assert(carried_on(db, db, Some(Action::Commit), plan, works) == (
            db,
            works(Action::Commit),
        ));
    }
    assert(carried_out(db, plan, works) == if works(Action::Begin) {
        carried_on(db, db, next_action(Action::Begin, true, plan.len()), plan, works)
    } else {
        (db, false)
    });
}

} // verus!
