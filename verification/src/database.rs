//! Preparing the PostgreSQL database before the service starts: create it
//! when it is missing, connect, and run the migrations in production.

use vstd::prelude::*;

use crate::environment::Environment;

verus! {

/// Where the preparation stands: what it waits for.
#[derive(PartialEq, Eq, Structural, Debug, Clone, Copy)]
pub enum DbSetupStep {
    AwaitExists,
    AwaitCreated,
    AwaitConnected,
    AwaitMigrated,
    Ready,
    Aborted,
}

/// What happened to the last action.
#[derive(PartialEq, Eq, Structural, Debug, Clone, Copy)]
pub enum DbSetupEvent {
    /// Whether the database exists.
    Exists(bool),
    /// The database was created.
    Created,
    /// The connection pool is ready.
    Connected,
    /// The migrations ran.
    Migrated,
    /// The action failed.
    Failed,
}

/// Why the preparation stopped.
#[derive(PartialEq, Eq, Structural, Debug, Clone, Copy)]
pub enum DbSetupFailure {
    CheckExists,
    CreateDatabase,
    Migrate,
    OutOfOrder,
}

/// What to do next.
#[derive(PartialEq, Eq, Structural, Debug, Clone, Copy)]
pub enum DbSetupAction {
    /// Ask the server whether the database exists.
    CheckExists,
    /// Create the database.
    CreateDatabase,
    /// Make the connection pool.
    Connect,
    /// Run the migrations.
    Migrate,
    /// The database is ready.
    Done,
    /// Stop the service.
    Abort(DbSetupFailure),
}

/// The preparation of the database for an environment.
#[derive(PartialEq, Eq, Structural, Debug, Clone, Copy)]
pub struct DbSetup {
    pub env: Environment,
    pub step: DbSetupStep,
}

/// The preparation after one event, and what to do next.
pub open spec fn db_transition(s: DbSetup, e: DbSetupEvent) -> (DbSetup, DbSetupAction) {
    let abort = |f: DbSetupFailure|
        (DbSetup { env: s.env, step: DbSetupStep::Aborted }, DbSetupAction::Abort(f));
    match (s.step, e) {
        (DbSetupStep::AwaitExists, DbSetupEvent::Exists(true)) => (
            DbSetup { env: s.env, step: DbSetupStep::AwaitConnected },
            DbSetupAction::Connect,
        ),
        (DbSetupStep::AwaitExists, DbSetupEvent::Exists(false)) => (
            DbSetup { env: s.env, step: DbSetupStep::AwaitCreated },
            DbSetupAction::CreateDatabase,
        ),
        (DbSetupStep::AwaitExists, DbSetupEvent::Failed) => abort(DbSetupFailure::CheckExists),
        (DbSetupStep::AwaitCreated, DbSetupEvent::Created) => (
            DbSetup { env: s.env, step: DbSetupStep::AwaitConnected },
            DbSetupAction::Connect,
        ),
        (DbSetupStep::AwaitCreated, DbSetupEvent::Failed) => abort(DbSetupFailure::CreateDatabase),
        (DbSetupStep::AwaitConnected, DbSetupEvent::Connected) => {
            if s.env == Environment::Production {
                (DbSetup { env: s.env, step: DbSetupStep::AwaitMigrated }, DbSetupAction::Migrate)
            } else {
                (DbSetup { env: s.env, step: DbSetupStep::Ready }, DbSetupAction::Done)
            }
        },
        (DbSetupStep::AwaitMigrated, DbSetupEvent::Migrated) => (
            DbSetup { env: s.env, step: DbSetupStep::Ready },
            DbSetupAction::Done,
        ),
        (DbSetupStep::AwaitMigrated, DbSetupEvent::Failed) => abort(DbSetupFailure::Migrate),
        _ => abort(DbSetupFailure::OutOfOrder),
    }
}

/// The preparation after a series of events, and the actions it asked for.
pub open spec fn db_run(s: DbSetup, events: Seq<DbSetupEvent>) -> (DbSetup, Seq<DbSetupAction>)
    decreases events.len(),
{
    if events.len() == 0 {
        (s, Seq::empty())
    } else {
        let (s1, a) = db_transition(s, events[0]);
        let (s2, rest) = db_run(s1, events.drop_first());
        (s2, seq![a] + rest)
    }
}

/// The events of a preparation in which every action succeeds.
pub open spec fn db_success_events(env: Environment, exists: bool) -> Seq<DbSetupEvent> {
    let found = if exists {
        seq![DbSetupEvent::Exists(true)]
    } else {
        seq![DbSetupEvent::Exists(false), DbSetupEvent::Created]
    };
    let migrated = if env == Environment::Production {
        seq![DbSetupEvent::Migrated]
    } else {
        Seq::empty()
    };
    found + seq![DbSetupEvent::Connected] + migrated
}

/// The actions of a preparation in which every action succeeds: create the
/// database only when it is missing, connect, and migrate only in
/// production.
pub open spec fn db_success_actions(env: Environment, exists: bool) -> Seq<DbSetupAction> {
    let found = if exists {
        seq![DbSetupAction::Connect]
    } else {
        seq![DbSetupAction::CreateDatabase, DbSetupAction::Connect]
    };
    let finish = if env == Environment::Production {
        seq![DbSetupAction::Migrate, DbSetupAction::Done]
    } else {
        seq![DbSetupAction::Done]
    };
    found + finish
}

impl DbSetupFailure {
    /// What the service says when it stops.
    pub fn message(&self) -> (r: &'static str)
        ensures
            r@ == match self {
                DbSetupFailure::CheckExists => "can't check if database exists or not"@,
                DbSetupFailure::CreateDatabase => "can't create database"@,
                DbSetupFailure::Migrate => "cannot run db migration"@,
                DbSetupFailure::OutOfOrder => "database setup steps out of order"@,
            },
    {
        match self {
            DbSetupFailure::CheckExists => "can't check if database exists or not",
            DbSetupFailure::CreateDatabase => "can't create database",
            DbSetupFailure::Migrate => "cannot run db migration",
            DbSetupFailure::OutOfOrder => "database setup steps out of order",
        }
    }
}

impl DbSetup {
    /// Starts preparing the database for `env`: first ask whether it exists.
    pub fn start(env: Environment) -> (r: (DbSetup, DbSetupAction))
        ensures
            r.0 == (DbSetup { env, step: DbSetupStep::AwaitExists }),
            r.1 == DbSetupAction::CheckExists,
    {
        (DbSetup { env, step: DbSetupStep::AwaitExists }, DbSetupAction::CheckExists)
    }

    /// Takes in what happened to the last action and says what to do next.
    pub fn advance(&mut self, event: DbSetupEvent) -> (a: DbSetupAction)
        ensures
            (*final(self), a) == db_transition(*old(self), event),
    {
        let (next, a) = match (self.step, event) {
            (DbSetupStep::AwaitExists, DbSetupEvent::Exists(true)) => (
                DbSetupStep::AwaitConnected,
                DbSetupAction::Connect,
            ),
            (DbSetupStep::AwaitExists, DbSetupEvent::Exists(false)) => (
                DbSetupStep::AwaitCreated,
                DbSetupAction::CreateDatabase,
            ),
            (DbSetupStep::AwaitExists, DbSetupEvent::Failed) => (
                DbSetupStep::Aborted,
                DbSetupAction::Abort(DbSetupFailure::CheckExists),
            ),
            (DbSetupStep::AwaitCreated, DbSetupEvent::Created) => (
                DbSetupStep::AwaitConnected,
                DbSetupAction::Connect,
            ),
            (DbSetupStep::AwaitCreated, DbSetupEvent::Failed) => (
                DbSetupStep::Aborted,
                DbSetupAction::Abort(DbSetupFailure::CreateDatabase),
            ),
            (DbSetupStep::AwaitConnected, DbSetupEvent::Connected) => {
                if self.env == Environment::Production {
                    (DbSetupStep::AwaitMigrated, DbSetupAction::Migrate)
                } else {
                    (DbSetupStep::Ready, DbSetupAction::Done)
                }
            },
            (DbSetupStep::AwaitMigrated, DbSetupEvent::Migrated) => (
                DbSetupStep::Ready,
                DbSetupAction::Done,
            ),
            (DbSetupStep::AwaitMigrated, DbSetupEvent::Failed) => (
                DbSetupStep::Aborted,
                DbSetupAction::Abort(DbSetupFailure::Migrate),
            ),
            _ => (DbSetupStep::Aborted, DbSetupAction::Abort(DbSetupFailure::OutOfOrder)),
        };
        self.step = next;
        a
    }
}

/// When every action succeeds, the database is created exactly when it is
/// missing, the migrations run exactly in production, and the preparation
/// ends ready.
pub proof fn law_setup_succeeds(env: Environment, exists: bool)
    ensures
        db_run(DbSetup { env, step: DbSetupStep::AwaitExists }, db_success_events(env, exists))
            == (DbSetup { env, step: DbSetupStep::Ready }, db_success_actions(env, exists)),
{
    let s = DbSetup { env, step: DbSetupStep::AwaitExists };
    let e = db_success_events(env, exists);
    reveal_with_fuel(db_run, 5);
    if exists {
        if env == Environment::Production {
            assert(e =~= seq![DbSetupEvent::Exists(true), DbSetupEvent::Connected, DbSetupEvent::Migrated]);
            assert(e.drop_first() =~= seq![DbSetupEvent::Connected, DbSetupEvent::Migrated]);
            assert(e.drop_first().drop_first() =~= seq![DbSetupEvent::Migrated]);
            assert(e.drop_first().drop_first().drop_first() =~= Seq::<DbSetupEvent>::empty());
        } else {
            assert(e =~= seq![DbSetupEvent::Exists(true), DbSetupEvent::Connected]);
            assert(e.drop_first() =~= seq![DbSetupEvent::Connected]);
            assert(e.drop_first().drop_first() =~= Seq::<DbSetupEvent>::empty());
        }
    } else {
        if env == Environment::Production {
            assert(e =~= seq![
                DbSetupEvent::Exists(false),
                DbSetupEvent::Created,
                DbSetupEvent::Connected,
                DbSetupEvent::Migrated,
            ]);
            assert(e.drop_first() =~= seq![
                DbSetupEvent::Created,
                DbSetupEvent::Connected,
                DbSetupEvent::Migrated,
            ]);
            assert(e.drop_first().drop_first() =~= seq![DbSetupEvent::Connected, DbSetupEvent::Migrated]);
            assert(e.drop_first().drop_first().drop_first() =~= seq![DbSetupEvent::Migrated]);
            assert(e.drop_first().drop_first().drop_first().drop_first() =~= Seq::<DbSetupEvent>::empty());
        } else {
            assert(e =~= seq![DbSetupEvent::Exists(false), DbSetupEvent::Created, DbSetupEvent::Connected]);
            assert(e.drop_first() =~= seq![DbSetupEvent::Created, DbSetupEvent::Connected]);
            assert(e.drop_first().drop_first() =~= seq![DbSetupEvent::Connected]);
            assert(e.drop_first().drop_first().drop_first() =~= Seq::<DbSetupEvent>::empty());
        }
    }
    assert(db_run(s, e).1 =~= db_success_actions(env, exists));
}

/// A failed action always stops the preparation: whatever it was waiting
/// for, a failure aborts it, naming the step that failed.
pub proof fn law_failure_aborts(s: DbSetup)
    ensures
        db_transition(s, DbSetupEvent::Failed).0 == (DbSetup { env: s.env, step: DbSetupStep::Aborted }),
        db_transition(s, DbSetupEvent::Failed).1 == DbSetupAction::Abort(
            match s.step {
                DbSetupStep::AwaitExists => DbSetupFailure::CheckExists,
                DbSetupStep::AwaitCreated => DbSetupFailure::CreateDatabase,
                DbSetupStep::AwaitMigrated => DbSetupFailure::Migrate,
                _ => DbSetupFailure::OutOfOrder,
            },
        ),
{
}

} // verus!
