//! The error taxonomy: one type that merges infrastructure failures of the
//! database driver with failures of the caller's own transactional logic.

use vstd::prelude::*;

use sea_orm::DbErr;

verus! {

/// The union of "transaction-infrastructure failure" and "caller-logic
/// failure".
///
/// A `Transaction` value is only ever produced by the executor after a
/// successful rollback of the enclosing transaction; a `Database` value
/// covers every failure of the driver itself (opening, SQL, commit,
/// rollback, migration).
#[derive(Debug)]
pub enum Error<E> {
    Database(DbErr),
    Transaction(E),
}

impl<E> Error<E> {
    /// True exactly on the infrastructure variant.
    pub fn is_database(&self) -> (b: bool)
        ensures
            b == (self is Database),
    {
        match self {
            Error::Database(_) => true,
            Error::Transaction(_) => false,
        }
    }

    /// True exactly on the caller-logic variant.
    pub fn is_transaction(&self) -> (b: bool)
        ensures
            b == (self is Transaction),
    {
        match self {
            Error::Database(_) => false,
            Error::Transaction(_) => true,
        }
    }

    /// Extracts the caller's own error, if this is the caller-logic variant.
    pub fn into_transaction(self) -> (r: Option<E>)
        ensures
            self matches Error::Transaction(e) ==> r == Some(e),
            self is Database ==> r is None,
    {
        match self {
            Error::Database(_) => None,
            Error::Transaction(e) => Some(e),
        }
    }
}

impl<E> Error<E> {
    /// Renders the error the way the reporting layer shows it, given the
    /// inner error's own rendered text.
    pub fn message_with(&self, detail: &str) -> (m: String)
        ensures
            self is Database ==> m@ == "database error: "@ + detail@,
            self is Transaction ==> m@ == "transaction error: "@ + detail@,
    {
        let mut m = match self {
            Error::Database(_) => String::from_str("database error: "),
            Error::Transaction(_) => String::from_str("transaction error: "),
        };
        m.append(detail);
        m
    }

    /// For the infrastructure variant, the full rendered message: the fixed
    /// prefix followed by the driver error's own text.
    pub fn database_message(&self) -> (m: Option<String>)
        ensures
            m is Some <==> self is Database,
            self matches Error::Database(err) ==> (m matches Some(s) && s@ == "database error: "@
                + crate::outside::db_err_text_of(*err)),
    {
        match self {
            Error::Database(err) => {
                let detail = crate::outside::db_err_text(err);
                Some(self.message_with(detail.as_str()))
            },
            Error::Transaction(_) => None,
        }
    }
}

impl<E> From<DbErr> for Error<E> {
    /// Wraps a driver error, as the executor's `?` on driver calls does.
    fn from(value: DbErr) -> (r: Self) {
        Error::Database(value)
    }
}

impl<E> vstd::std_specs::convert::FromSpecImpl<DbErr> for Error<E> {
    open spec fn obeys_from_spec() -> bool {
        true
    }

    open spec fn from_spec(t: DbErr) -> Self {
        Error::Database(t)
    }
}

} // verus!
