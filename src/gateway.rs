use vstd::prelude::*;
use crate::store::{Op, Stmt};

verus! {

/// The kinds of failure an operation of the store reports, each with its cause.
#[derive(Clone, Debug, PartialEq, Eq)]
pub enum DbError {
    /// The engine refused a statement (a constraint, or I/O).
    Sqlite(String),
    /// The store's file or directory could not be reached.
    Io(String),
    /// An entity could not be read or written in its exchange form.
    Serde(String),
    /// An operation ran before the schema was migrated.
    NotInitialized,
    /// An earlier operation failed while it held the connection.
    LockPoisoned,
    /// A row that was asked for does not exist; reads report an absent row as
    /// an empty result instead, so no operation returns this yet.
    NotFound(String),
}

/// Whether an operation may take the connection: the store must have been
/// migrated, and no earlier operation may have failed while holding the lock.
pub fn check_access(initialized: bool, lock_poisoned: bool) -> (r: Result<(), DbError>)
    ensures
        match r {
            Ok(()) => initialized && !lock_poisoned,
            Err(DbError::NotInitialized) => !initialized,
            Err(DbError::LockPoisoned) => initialized && lock_poisoned,
            Err(_) => false,
        },
{
    if !initialized {
        Err(DbError::NotInitialized)
    } else if lock_poisoned {
        Err(DbError::LockPoisoned)
    } else {
        Ok(())
    }
}

/// Whether a transaction is open after the statements `ops` ran: one was
/// begun and not committed or rolled back since.
pub open spec fn transaction_open(ops: Seq<Op>) -> bool
    decreases ops.len(),
{
    if ops.len() == 0 {
        false
    } else {
        match ops.last() {
            Op::Begin => true,
            Op::Commit | Op::Rollback => false,
            _ => transaction_open(ops.drop_last()),
        }
    }
}

/// What to issue when statement `failed` of `plan` was refused: a rollback
/// where the statements before it left a transaction open, else nothing.
pub fn abort_statements(plan: &Vec<Stmt>, failed: usize) -> (r: Vec<Stmt>)
    requires
        failed <= plan@.len(),
    ensures
        transaction_open(plan@.subrange(0, failed as int).map_values(|s: Stmt| s@)) ==> r@.len()
            == 1 && r@[0]@ == Op::Rollback,
        !transaction_open(plan@.subrange(0, failed as int).map_values(|s: Stmt| s@)) ==> r@.len()
            == 0,
{
    let mut open = false;
    let mut i: usize = 0;
    while i < failed
        invariant
            i <= failed <= plan@.len(),
            open == transaction_open(plan@.subrange(0, i as int).map_values(|s: Stmt| s@)),
        decreases failed - i,
    {
        proof {
            let next = plan@.subrange(0, i + 1).map_values(|s: Stmt| s@);
            assert(next.drop_last() =~= plan@.subrange(0, i as int).map_values(|s: Stmt| s@));
            assert(next.last() == plan@[i as int]@);
        }
        match &plan[i] {
            Stmt::Begin => {
                open = true;
            },
            Stmt::Commit | Stmt::Rollback => {
                open = false;
            },
            _ => {},
        }
        i = i + 1;
    }
    let mut r: Vec<Stmt> = Vec::new();
    if open {
        r.push(Stmt::Rollback);
    }
    r
}

} // verus!
