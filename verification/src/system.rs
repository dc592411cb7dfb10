//! The shared system handle and the capability-scoped view into one
//! transaction.
//!
//! A `System` owns the process-wide, reference-counted connection handle.
//! Opening it (connect and migrate) and driving transactions against it are
//! asynchronous I/O and live outside the verified core; what stands here is
//! the structure those routines rely on: the handle itself, and the
//! `Context` that scopes caller logic to exactly one open transaction.

use vstd::prelude::*;

use std::sync::Arc;

use sea_orm::DatabaseConnection;
use sea_orm::DatabaseTransaction;

verus! {

/// The process-wide handle: a shared, pool-backed database connection.
/// Cloning it is a reference-count increment, never a second connection.
#[derive(Clone)]
pub struct System {
    db: Arc<DatabaseConnection>,
}

impl System {
    /// Wraps an opened connection in a shared handle. The connecting and
    /// migrating that precede this are I/O, performed by the caller.
    pub fn new(db: Arc<DatabaseConnection>) -> (s: System)
        ensures
            s.connection() == db,
    {
        System { db }
    }

    /// The connection that every transaction of this system runs against.
    pub closed spec fn connection(&self) -> Arc<DatabaseConnection> {
        self.db
    }

    /// Borrows the shared connection handle.
    pub fn db(&self) -> (c: &Arc<DatabaseConnection>)
        ensures
            *c == self.connection(),
    {
        &self.db
    }
}

/// A borrowed, capability-scoped view over exactly one open transaction.
/// It exposes nothing but accessors that construct sub-system facades over
/// the same borrowed transaction, so everything caller logic does inside
/// one `transaction` call joins the same atomic unit, and nothing it builds
/// can outlive that call.
pub struct Context<'t> {
    tx: &'t DatabaseTransaction,
}

/// The VEX sub-system facade: its operations issue their queries against
/// the one transaction the facade was built over.
pub struct VexSystem<'t> {
    tx: &'t DatabaseTransaction,
}

impl<'t> Context<'t> {
    /// Binds a context to an open transaction, for the duration of one
    /// executor invocation.
    pub fn new(tx: &'t DatabaseTransaction) -> (c: Context<'t>)
        ensures
            c.transaction() == tx,
    {
        Context { tx }
    }

    /// The transaction this context is scoped to.
    pub closed spec fn transaction(&self) -> &'t DatabaseTransaction {
        self.tx
    }

    /// The VEX facade: carries exactly the context's own borrowed
    /// transaction, never a different or longer-lived one.
    pub fn vex(&self) -> (v: VexSystem<'t>)
        ensures
            v.transaction() == self.transaction(),
    {
        VexSystem { tx: self.tx }
    }
}

impl<'t> VexSystem<'t> {
    /// The transaction this facade issues its queries against.
    pub closed spec fn transaction(&self) -> &'t DatabaseTransaction {
        self.tx
    }

    /// Borrows the transaction, for issuing a query.
    pub fn tx(&self) -> (t: &'t DatabaseTransaction)
        ensures
            t == self.transaction(),
    {
        self.tx
    }
}

} // verus!
