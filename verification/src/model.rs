//! An in-memory model of the transactional store.
//!
//! The real store is a relational database reached over the network; what
//! this core guarantees about it — commit publishes every write of the
//! enclosed logic, rollback discards them all — is stated and proved here
//! against a store the verifier can see: a committed sequence of records,
//! and per-transaction working copies. `run_transaction` is the executor
//! run against this model; its contract is the atomicity guarantee.

use vstd::prelude::*;

use crate::error::Error;

verus! {

/// The model store: the records that have been durably committed.
pub struct ModelDb {
    rows: Vec<u64>,
}

/// One open model transaction: a working copy of the store at the time the
/// transaction began, plus every write performed through it since.
pub struct ModelTx {
    rows: Vec<u64>,
}

impl View for ModelDb {
    type V = Seq<u64>;

    closed spec fn view(&self) -> Seq<u64> {
        self.rows@
    }
}

impl View for ModelTx {
    type V = Seq<u64>;

    closed spec fn view(&self) -> Seq<u64> {
        self.rows@
    }
}

impl ModelDb {
    /// An empty store.
    pub fn new() -> (db: ModelDb)
        ensures
            db@ == Seq::<u64>::empty(),
    {
        ModelDb { rows: Vec::new() }
    }

    /// Opens a transaction: its working copy sees exactly the committed
    /// records.
    pub fn begin(&self) -> (tx: ModelTx)
        ensures
            tx@ == self@,
    {
        let mut rows: Vec<u64> = Vec::new();
        let mut i: usize = 0;
        while i < self.rows.len()
            invariant
                i <= self.rows.len(),
                rows@ == self.rows@.subrange(0, i as int),
            decreases self.rows.len() - i,
        {
            rows.push(self.rows[i]);
            i = i + 1;
        }
        proof {
            assert(rows@ =~= self.rows@);
        }
        ModelTx { rows }
    }

    /// Commits a transaction: the store now holds exactly what the
    /// transaction's working copy held.
    pub fn commit(&mut self, tx: ModelTx)
        ensures
            final(self)@ == tx@,
    {
        self.rows = tx.rows;
    }

    /// Rolls a transaction back: the store is left exactly as it was.
    pub fn rollback(&mut self, tx: ModelTx)
        ensures
            final(self)@ == old(self)@,
    {
        let _ = tx;
    }

    /// Whether a committed record with this key exists.
    pub fn contains(&self, row: u64) -> (b: bool)
        ensures
            b == self@.contains(row),
    {
        contains_row(&self.rows, row)
    }

    /// How many records are committed.
    pub fn len(&self) -> (n: usize)
        ensures
            n == self@.len(),
    {
        self.rows.len()
    }
}

impl ModelTx {
    /// Writes one record through the transaction.
    pub fn insert(&mut self, row: u64)
        ensures
            final(self)@ == old(self)@.push(row),
    {
        self.rows.push(row);
    }

    /// Whether the transaction sees a record with this key (committed
    /// before it began, or written through it).
    pub fn contains(&self, row: u64) -> (b: bool)
        ensures
            b == self@.contains(row),
    {
        contains_row(&self.rows, row)
    }
}

fn contains_row(rows: &Vec<u64>, row: u64) -> (b: bool)
    ensures
        b == rows@.contains(row),
{
    let mut i: usize = 0;
    while i < rows.len()
        invariant
            i <= rows.len(),
            forall|j: int| 0 <= j < i ==> rows@[j] != row,
        decreases rows.len() - i,
    {
        if rows[i] == row {
            return true;
        }
        i = i + 1;
    }
    false
}

impl ModelDb {
    /// The transaction executor, run against the model store.
    ///
    /// `logic` receives the open transaction, works on it, and returns it
    /// together with its outcome. The contract is the scoping guarantee:
    ///
    /// - if `logic` fails, its error comes back as `Error::Transaction` and
    ///   the store is exactly as it was — every write is rolled back;
    /// - if `logic` succeeds, its value comes back as `Ok` and the store
    ///   holds exactly the working copy `logic` produced — every write is
    ///   committed;
    /// - the model driver itself never fails, so no `Error::Database`
    ///   arises.
    pub fn transaction<T, E, F>(&mut self, logic: F) -> (r: Result<T, Error<E>>) where
        F: FnOnce(ModelTx) -> (ModelTx, Result<T, E>),

        requires
            forall|tx: ModelTx| tx@ == old(self)@ ==> #[trigger] call_requires(logic, (tx,)),
        ensures
            r matches Err(e) ==> e is Transaction,
            r matches Err(e) ==> final(self)@ == old(self)@,
            r matches Err(e) ==> exists|tx0: ModelTx, out: (ModelTx, Result<T, E>)|
                tx0@ == old(self)@ && #[trigger] call_ensures(logic, (tx0,), out)
                    && (out.1 matches Err(le) && e == Error::<E>::Transaction(le)),
            r matches Ok(v) ==> exists|tx0: ModelTx, out: (ModelTx, Result<T, E>)|
                tx0@ == old(self)@ && #[trigger] call_ensures(logic, (tx0,), out)
                    && out.1 == Ok::<T, E>(v) && final(self)@ == out.0@,
    {
        let tx = self.begin();
        let (tx_after, outcome) = logic(tx);
        match outcome {
            Ok(v) => {
                self.commit(tx_after);
                Ok(v)
            },
            Err(e) => {
                self.rollback(tx_after);
                Err(Error::Transaction(e))
            },
        }
    }
}

} // verus!
