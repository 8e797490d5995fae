//! Collecting a statement's result set under a row limit, shared by the
//! adapters: rows past the limit are read and dropped, and the result says
//! it was cut.

use vstd::prelude::*;
use crate::model::{Cell, ColumnInfo, ExecuteResult};

verus! {

/// The rows kept from a stream of rows under a limit: the first `limit`.
pub open spec fn kept_rows(offered: Seq<Vec<Cell>>, limit: usize) -> Seq<Vec<Cell>> {
    if offered.len() <= limit {
        offered
    } else {
        offered.take(limit as int)
    }
}

/// A result set being read from the database.
pub struct ResultBuilder {
    columns: Vec<ColumnInfo>,
    rows: Vec<Vec<Cell>>,
    truncated: bool,
    rows_affected: Option<u64>,
    limit: usize,
    offered: Ghost<Seq<Vec<Cell>>>,
}

impl ResultBuilder {
    /// The builder keeps what the stream offered so far, cut at the limit.
    pub closed spec fn well_formed(&self) -> bool {
        &&& self.rows@ == kept_rows(self.offered@, self.limit)
        &&& self.truncated == (self.offered@.len() > self.limit)
    }

    pub closed spec fn offered(&self) -> Seq<Vec<Cell>> {
        self.offered@
    }

    pub closed spec fn limit(&self) -> usize {
        self.limit
    }

    pub closed spec fn columns(&self) -> Seq<ColumnInfo> {
        self.columns@
    }

    pub closed spec fn affected(&self) -> Option<u64> {
        self.rows_affected
    }

    pub fn new(limit: usize) -> (b: Self)
        ensures
            b.well_formed(),
            b.offered() == Seq::<Vec<Cell>>::empty(),
            b.limit() == limit,
            b.columns().len() == 0,
            b.affected() is None,
    {
        ResultBuilder {
            columns: Vec::new(),
            rows: Vec::new(),
            truncated: false,
            rows_affected: None,
            limit,
            offered: Ghost(Seq::empty()),
        }
    }

    /// Records the column descriptions of the result set.
    pub fn set_columns(&mut self, columns: Vec<ColumnInfo>)
        requires
            old(self).well_formed(),
        ensures
            final(self).well_formed(),
            final(self).columns() == columns@,
            final(self).offered() == old(self).offered(),
            final(self).limit() == old(self).limit(),
            final(self).affected() == old(self).affected(),
    {
        self.columns = columns;
    }

    /// The number of columns described so far.
    pub fn column_count(&self) -> (n: usize)
        ensures
            n == self.columns().len(),
    {
        self.columns.len()
    }

    /// Takes the next row of the stream: kept while under the limit,
    /// otherwise dropped and the result marked as cut.
    pub fn offer_row(&mut self, row: Vec<Cell>)
        requires
            old(self).well_formed(),
        ensures
            final(self).well_formed(),
            final(self).offered() == old(self).offered().push(row),
            final(self).columns() == old(self).columns(),
            final(self).limit() == old(self).limit(),
            final(self).affected() == old(self).affected(),
    {
        let ghost before = self.offered@;
        if self.rows.len() >= self.limit {
            self.truncated = true;
        } else {
            self.rows.push(row);
        }
        self.offered = Ghost(before.push(row));
        proof {
            let o = self.offered@;
            if before.len() > self.limit {
                assert(o.take(self.limit as int) =~= before.take(self.limit as int));
            } else if before.len() == self.limit {
                assert(o.take(self.limit as int) =~= before);
            }
        }
    }

    /// Records the count of affected rows the database reported.
    pub fn set_rows_affected(&mut self, n: u64)
        requires
            old(self).well_formed(),
        ensures
            final(self).well_formed(),
            final(self).affected() == Some(n),
            final(self).offered() == old(self).offered(),
            final(self).columns() == old(self).columns(),
            final(self).limit() == old(self).limit(),
    {
        self.rows_affected = Some(n);
    }

    /// The result set: the kept rows, whether some were dropped, and the
    /// time it took.
    pub fn finish(self, duration_ms: u64) -> (r: ExecuteResult)
        requires
            self.well_formed(),
        ensures
            r.columns@ == self.columns(),
            r.rows@ == kept_rows(self.offered(), self.limit()),
            r.truncated == (self.offered().len() > self.limit()),
            r.rows_affected == self.affected(),
            r.duration_ms == duration_ms,
    {
        ExecuteResult {
            columns: self.columns,
            rows: self.rows,
            rows_affected: self.rows_affected,
            truncated: self.truncated,
            duration_ms,
        }
    }
}

} // verus!
