//! Catalog reader runtime: the introspection session.
//!
//! The database driver performs the blocking queries; the session consumes
//! each fetched value as an event and decides the next step. The flow is one
//! linear pass: list table names, then drain each table's describe cursor
//! fully before moving to the next, then render. Any driver failure aborts
//! the whole run at once; tables are processed in the order the list query
//! returned them.

use vstd::prelude::*;
use crate::error::Error;
use crate::store::QueryDataByCol;
use crate::store::TableEntryV;
use crate::store::TableMap;
use crate::store::cells_view;
use crate::store::spec_add_table;
use crate::store::spec_insert_row;

verus! {

/// User space table names query.
pub const TABLE_NAMES: &'static str = "select table_name from user_tables";

/// Describe user space tables Oracle SQL.
pub const DESC: &'static str = "SELECT TABLE_NAME, COLUMN_NAME, DATA_TYPE, DATA_TYPE_MOD,
DATA_TYPE_OWNER, DATA_LENGTH, DATA_PRECISION, DATA_SCALE, NULLABLE, COLUMN_ID, DEFAULT_LENGTH,
NUM_DISTINCT, LOW_VALUE, HIGH_VALUE, DENSITY, NUM_NULLS, NUM_BUCKETS, LAST_ANALYZED, SAMPLE_SIZE,
CHARACTER_SET_NAME, CHAR_COL_DECL_LENGTH, GLOBAL_STATS, USER_STATS, AVG_COL_LEN, CHAR_LENGTH,
CHAR_USED, V80_FMT_IMAGE, DATA_UPGRADED, HISTOGRAM, DEFAULT_ON_NULL, IDENTITY_COLUMN,
EVALUATION_EDITION, UNUSABLE_BEFORE, UNUSABLE_BEGINNING
FROM user_tab_columns
WHERE table_name=:table_name";

/// One driver observation handed to the session.
pub enum Event {
    /// The list query fetched one table name.
    TableName(String),
    /// The list query's cursor is exhausted.
    TablesDone,
    /// The current describe cursor fetched one row: its buffer index and
    /// its cells, one per result column.
    Row(u32, Vec<QueryDataByCol>),
    /// The current describe cursor is exhausted.
    RowsDone,
    /// The driver failed; holds its diagnostic.
    Failure(String),
}

/// What the session asks its caller to do next.
pub enum Action {
    /// Fetch the next table name from the list cursor.
    FetchTable,
    /// Run the describe query bound to the given table name, then fetch.
    Describe(String),
    /// Fetch the next row from the current describe cursor.
    FetchRow,
    /// All cursors are drained: render the buffered tables.
    Render,
    /// Abort the run with the given error.
    Abort(Error),
}

/// Where the session stands in its linear pass.
pub enum Phase {
    /// Draining the list-tables cursor.
    Listing,
    /// Draining the describe cursor of the table at this list position.
    Fetching(usize),
    /// Every table's cursor was drained.
    Done,
    /// A driver failure ended the run.
    Failed,
}

/// One introspection run: the buffered tables and the current phase.
pub struct Session {
    /// Where the pass stands.
    pub phase: Phase,
    /// The tables buffered so far, in list order.
    pub tables: TableMap,
}

impl Session {
    /// The session is well formed when its table map is and its phase
    /// points at a registered table.
    pub open spec fn wf(&self) -> bool {
        &&& self.tables.wf()
        &&& (self.phase matches Phase::Fetching(i) ==> i < self.tables@.len())
    }

    /// A fresh session, about to issue the list-tables query.
    pub fn new() -> (s: Session)
        ensures
            s.wf(),
            s.phase is Listing,
            s.tables@ == Seq::<TableEntryV>::empty(),
    {
        Session { phase: Phase::Listing, tables: TableMap::new() }
    }

    /// Which events the current phase can consume.
    pub open spec fn accepts(&self, e: &Event) -> bool {
        match self.phase {
            Phase::Listing => (e matches Event::TableName(_) || e matches Event::TablesDone
                || e matches Event::Failure(_)),
            Phase::Fetching(_) => (e matches Event::Row(_, _) || e matches Event::RowsDone
                || e matches Event::Failure(_)),
            Phase::Done => false,
            Phase::Failed => false,
        }
    }

    /// Whether the current phase can consume the given event; what
    /// `accepts` says, decided at run time for callers outside the
    /// library.
    pub fn can_accept(&self, e: &Event) -> (b: bool)
        ensures
            b == self.accepts(e),
    {
        match self.phase {
            Phase::Listing => match e {
                Event::TableName(_) => true,
                Event::TablesDone => true,
                Event::Failure(_) => true,
                _ => false,
            },
            Phase::Fetching(_) => match e {
                Event::Row(_, _) => true,
                Event::RowsDone => true,
                Event::Failure(_) => true,
                _ => false,
            },
            Phase::Done => false,
            Phase::Failed => false,
        }
    }

    /// Consume one driver observation and decide the next step. A fetched
    /// table name is registered and the listing goes on; the end of the
    /// list starts the first describe, or asks to render when the catalog
    /// has no tables; a fetched row is stored under its buffer index in the
    /// current table and its widths are observed; the end of a describe
    /// cursor moves to the next table, or asks to render after the last
    /// one; a driver failure aborts the run at once, keeping the tables
    /// buffered so far untouched.
    pub fn step(&mut self, e: Event) -> (a: Action)
        requires
            old(self).wf(),
            old(self).accepts(&e),
        ensures
            final(self).wf(),
            (e matches Event::Failure(m) ==> {
                &&& final(self).phase is Failed
                &&& final(self).tables@ == old(self).tables@
                &&& (a matches Action::Abort(err) && (err matches Error::Driver(d) && d@ == m@))
            }),
            (e matches Event::TableName(n) ==> {
                &&& final(self).phase is Listing
                &&& final(self).tables@ == spec_add_table(old(self).tables@, n@)
                &&& a is FetchTable
            }),
            (e is TablesDone ==> {
                &&& final(self).tables@ == old(self).tables@
                &&& (if old(self).tables@.len() == 0 {
                    final(self).phase is Done && a is Render
                } else {
                    &&& final(self).phase matches Phase::Fetching(i) && i == 0
                    &&& (a matches Action::Describe(nm) && nm@ == old(self).tables@[0].name)
                })
            }),
            (e matches Event::Row(index, row) ==> {
                &&& final(self).phase == old(self).phase
                &&& (old(self).phase matches Phase::Fetching(t) ==> final(self).tables@ == old(
                    self,
                ).tables@.update(
                    t as int,
                    TableEntryV {
                        name: old(self).tables@[t as int].name,
                        rows: spec_insert_row(
                            old(self).tables@[t as int].rows,
                            index,
                            cells_view(row@),
                        ),
                    },
                ))
                &&& a is FetchRow
            }),
            (e is RowsDone ==> {
                &&& final(self).tables@ == old(self).tables@
                &&& (old(self).phase matches Phase::Fetching(t) ==> (if t + 1
                    < old(self).tables@.len() {
                    &&& final(self).phase matches Phase::Fetching(i) && i == t + 1
                    &&& (a matches Action::Describe(nm) && nm@ == old(self).tables@[t + 1].name)
                } else {
                    final(self).phase is Done && a is Render
                }))
            }),
    {
        match e {
            Event::Failure(m) => {
                self.phase = Phase::Failed;
                Action::Abort(Error::Driver(m))
            },
            Event::TableName(n) => {
                self.tables.add_table(n);
                Action::FetchTable
            },
            Event::TablesDone => {
                if self.tables.len() == 0 {
                    self.phase = Phase::Done;
                    Action::Render
                } else {
                    self.phase = Phase::Fetching(0);
                    Action::Describe(self.tables.name_at(0).clone())
                }
            },
            Event::Row(index, row) => {
                match self.phase {
                    Phase::Fetching(t) => {
                        self.tables.insert_row(t, index, row);
                        Action::FetchRow
                    },
                    _ => {
                        proof {
                            assert(false);
                        }
                        Action::FetchRow
                    },
                }
            },
            Event::RowsDone => {
                match self.phase {
                    Phase::Fetching(t) => {
                        let n = self.tables.len();
                        proof {
                            assert(t < n);
                        }
                        if t + 1 < n {
                            self.phase = Phase::Fetching(t + 1);
                            Action::Describe(self.tables.name_at(t + 1).clone())
                        } else {
                            self.phase = Phase::Done;
                            Action::Render
                        }
                    },
                    _ => {
                        proof {
                            assert(false);
                        }
                        Action::Render
                    },
                }
            },
        }
    }
}

} // verus!
