//! Cell/row store for one table's describe result.
//!
//! Rows are kept as an ordered map from row index to the row's cells, so
//! consumers iterate in index order even when the driver hands indices out
//! neither densely nor monotonically. A parallel per-column accumulator
//! tracks the maximum textual width seen for each column position; it is
//! updated for every cell as the cell arrives, before the row is stored.

use vstd::prelude::*;
use vstd::pervasive::VecAdditionalExecFns;
use vstd::string::StrSliceExecFns;
use vstd::string::StringExecFns;

verus! {

/// Ghost form of one fetched cell.
pub ghost struct CellV {
    /// The column name this cell was fetched under.
    pub column_name: Seq<char>,
    /// The column's native data type name.
    pub native_type: Seq<char>,
    /// The cell's display text, absent for SQL NULL.
    pub data: Option<Seq<char>>,
}

/// Query data by column: one fetched value, tagged with the column it came
/// from and its native type, absent when the database reported NULL.
#[derive(Debug)]
pub struct QueryDataByCol {
    /// The column name.
    pub column_name: String,
    /// The column native data type name.
    pub native_type: String,
    /// The column data as display text, `None` for SQL NULL.
    pub data: Option<String>,
}

impl View for QueryDataByCol {
    type V = CellV;

    open spec fn view(&self) -> CellV {
        CellV {
            column_name: self.column_name@,
            native_type: self.native_type@,
            data: match self.data {
                Option::Some(s) => Option::Some(s@),
                Option::None => Option::None,
            },
        }
    }
}

/// The display text of a cell: its data, or the null marker.
pub open spec fn spec_cell_text(c: CellV) -> Seq<char> {
    match c.data {
        Option::Some(t) => t,
        Option::None => "(null)"@,
    }
}

/// The textual width of a cell: the length of its display text.
pub open spec fn spec_cell_width(c: CellV) -> nat {
    spec_cell_text(c).len()
}

impl QueryDataByCol {
    /// Build one cell record.
    pub fn new(column_name: String, native_type: String, data: Option<String>) -> (c:
        QueryDataByCol)
        ensures
            c@ == (CellV {
                column_name: column_name@,
                native_type: native_type@,
                data: match data {
                    Option::Some(s) => Option::Some(s@),
                    Option::None => Option::None,
                },
            }),
    {
        QueryDataByCol { column_name, native_type, data }
    }

    /// The column name.
    pub fn column_name(&self) -> (n: &String)
        ensures
            n@ == self@.column_name,
    {
        &self.column_name
    }

    /// The column native data type name.
    pub fn native_type(&self) -> (t: &String)
        ensures
            t@ == self@.native_type,
    {
        &self.native_type
    }

    /// The column data, absent for SQL NULL.
    pub fn data(&self) -> (d: &Option<String>)
        ensures
            *d == self.data,
    {
        &self.data
    }

    /// The cell's display text: the data when present, else the null marker.
    pub fn display_text(&self) -> (t: String)
        ensures
            t@ == spec_cell_text(self@),
    {
        match &self.data {
            Option::Some(s) => s.clone(),
            Option::None => String::from_str("(null)"),
        }
    }
}

/// Ghost form of the cells of a sequence of cell records.
pub open spec fn cells_view(s: Seq<QueryDataByCol>) -> Seq<CellV> {
    s.map_values(|c: QueryDataByCol| c@)
}

/// Ghost form of one stored row: its index and its cells.
pub ghost struct RowV {
    /// The driver-assigned row index.
    pub index: u32,
    /// The row's cells, in column order.
    pub cells: Seq<CellV>,
}

/// The larger of two widths.
pub open spec fn max_usize(a: usize, b: usize) -> usize {
    if a >= b {
        a
    } else {
        b
    }
}

/// One `observe` step of the width accumulator: grow to cover `pos`, then
/// raise the entry at `pos` to at least `len`.
pub open spec fn spec_observe(w: Seq<usize>, pos: int, len: usize) -> Seq<usize>
    recommends
        0 <= pos,
{
    let grown = if pos < w.len() {
        w
    } else {
        w + Seq::new((pos + 1 - w.len()) as nat, |k: int| 0usize)
    };
    grown.update(pos, max_usize(grown[pos], len))
}

/// The width accumulator after observing the first `upto` cells of a row.
pub open spec fn spec_observe_cells(w: Seq<usize>, cells: Seq<CellV>, upto: int) -> Seq<usize>
    decreases upto,
{
    if upto <= 0 {
        w
    } else {
        spec_observe(
            spec_observe_cells(w, cells, upto - 1),
            upto - 1,
            spec_cell_width(cells[upto - 1]) as usize,
        )
    }
}

/// The width accumulator after observing every cell of a row.
pub open spec fn spec_observe_row(w: Seq<usize>, cells: Seq<CellV>) -> Seq<usize> {
    spec_observe_cells(w, cells, cells.len() as int)
}

/// The position where a row with index `index` belongs: the first position
/// holding an index at least as large, or the end.
pub open spec fn find_pos(s: Seq<RowV>, index: u32) -> int
    decreases s.len(),
{
    if s.len() == 0 {
        0
    } else if s[0].index >= index {
        0
    } else {
        1 + find_pos(s.drop_first(), index)
    }
}

/// What storing a row does to the ordered row sequence: replace the row
/// holding the same index, or splice the new row in at its sorted position.
pub open spec fn spec_insert_row(s: Seq<RowV>, index: u32, cells: Seq<CellV>) -> Seq<RowV> {
    let i = find_pos(s, index);
    if i < s.len() && s[i].index == index {
        s.update(i, RowV { index, cells })
    } else {
        s.insert(i, RowV { index, cells })
    }
}

/// Rows are an ordered map of row index to vector of column data, with the
/// per-column width accumulator alongside.
pub struct Rows {
    /// The stored rows, strictly ordered by row index.
    pub entries: Vec<(u32, Vec<QueryDataByCol>)>,
    /// For each column position, the maximum textual width observed so far.
    pub widths: Vec<usize>,
}

impl View for Rows {
    type V = Seq<RowV>;

    open spec fn view(&self) -> Seq<RowV> {
        self.entries@.map_values(
            |e: (u32, Vec<QueryDataByCol>)| RowV { index: e.0, cells: cells_view(e.1@) },
        )
    }
}

impl Rows {
    /// The store is well formed when its row indices are strictly increasing.
    pub open spec fn wf(&self) -> bool {
        forall|i: int, j: int| 0 <= i < j < self@.len() ==> self@[i].index < self@[j].index
    }

    /// An empty store: no rows, no widths observed.
    pub fn new() -> (r: Rows)
        ensures
            r@ == Seq::<RowV>::empty(),
            r.widths@ == Seq::<usize>::empty(),
            r.wf(),
    {
        let r = Rows { entries: Vec::new(), widths: Vec::new() };
        proof {
            assert(r@ =~= Seq::<RowV>::empty());
        }
        r
    }

    /// How many rows are stored.
    pub fn len(&self) -> (n: usize)
        ensures
            n == self@.len(),
    {
        self.entries.len()
    }

    /// The row stored at position `i` of the index order.
    pub fn row_at(&self, i: usize) -> (r: (u32, &Vec<QueryDataByCol>))
        requires
            i < self@.len(),
        ensures
            self@[i as int].index == r.0,
            self@[i as int].cells == cells_view(r.1@),
    {
        let e = &self.entries[i];
        (e.0, &e.1)
    }

    /// The width accumulator entry for column position `pos`, or zero where
    /// nothing was observed yet.
    pub fn max_width(&self, pos: usize) -> (w: usize)
        ensures
            w == if pos < self.widths@.len() {
                self.widths@[pos as int]
            } else {
                0usize
            },
    {
        if pos < self.widths.len() {
            self.widths[pos]
        } else {
            0
        }
    }

    /// Observe one cell's textual width for the column at `pos`: the
    /// accumulator entry becomes the maximum of its old value and `len`.
    pub fn observe(&mut self, pos: usize, len: usize)
        ensures
            final(self).widths@ == spec_observe(old(self).widths@, pos as int, len),
            final(self).entries == old(self).entries,
    {
        let ghost w0 = self.widths@;
        while self.widths.len() <= pos
            invariant
                w0.len() <= self.widths@.len(),
                self.widths@.len() <= w0.len() || self.widths@.len() <= pos + 1,
                self.widths@ =~= w0 + Seq::new((self.widths@.len() - w0.len()) as nat, |k: int| 0usize),
                self.entries == old(self).entries,
            decreases pos + 1 - self.widths@.len(),
        {
            self.widths.push(0);
            proof {
                assert(self.widths@ =~= w0 + Seq::new(
                    (self.widths@.len() - w0.len()) as nat,
                    |k: int| 0usize,
                ));
            }
        }
        let ghost grown = self.widths@;
        let cur = self.widths[pos];
        if len > cur {
            self.widths.set(pos, len);
        } else {
            proof {
                assert(self.widths@ =~= grown.update(pos as int, max_usize(grown[pos as int], len)));
            }
        }
        proof {
            assert(self.widths@ =~= spec_observe(w0, pos as int, len));
        }
    }

    /// Store one row under `index`: observe every cell's textual width, then
    /// insert the row at its index position, replacing any row already stored
    /// under the same index.
    pub fn insert(&mut self, index: u32, row: Vec<QueryDataByCol>)
        requires
            old(self).wf(),
        ensures
            final(self).wf(),
            final(self)@ == spec_insert_row(old(self)@, index, cells_view(row@)),
            final(self).widths@ == spec_observe_row(old(self).widths@, cells_view(row@)),
    {
        let ghost w0 = self.widths@;
        let ghost s0 = self@;
        let ghost cells = cells_view(row@);
        let mut k: usize = 0;
        while k < row.len()
            invariant
                k <= row.len(),
                cells == cells_view(row@),
                self.widths@ == spec_observe_cells(w0, cells, k as int),
                self.entries == old(self).entries,
            decreases row.len() - k,
        {
            let t = row[k].display_text();
            let w = t.as_str().unicode_len();
            proof {
                assert(cells[k as int] == row@[k as int]@);
                assert(w as nat == spec_cell_width(cells[k as int]));
            }
            self.observe(k, w);
            k = k + 1;
        }
        proof {
            assert(self.widths@ == spec_observe_row(w0, cells));
        }
        let mut i: usize = 0;
        while i < self.entries.len() && self.entries[i].0 < index
            invariant
                i <= self@.len(),
                forall|j: int| 0 <= j < i ==> self@[j].index < index,
                self@ == s0,
                self.entries == old(self).entries,
                self.widths@ == spec_observe_row(w0, cells),
            decreases self@.len() - i,
        {
            i = i + 1;
        }
        proof {
            lemma_find_pos_char(s0, index, i as int);
        }
        if i < self.entries.len() && self.entries[i].0 == index {
            self.entries.remove(i);
            self.entries.insert(i, (index, row));
            proof {
                assert(self@ =~= s0.update(i as int, RowV { index, cells }));
                assert forall|a: int, b: int| 0 <= a < b < self@.len() implies self@[a].index
                    < self@[b].index by {
                    assert(s0[i as int].index == index);
                }
            }
        } else {
            self.entries.insert(i, (index, row));
            proof {
                s0.insert_ensures(i as int, RowV { index, cells });
                assert(self@ =~= s0.insert(i as int, RowV { index, cells }));
                assert forall|a: int, b: int| 0 <= a < b < self@.len() implies self@[a].index
                    < self@[b].index by {
                    if a < i {
                        assert(self@[a] == s0[a]);
                    }
                    if b < i {
                        assert(self@[b] == s0[b]);
                    }
                    if a > i {
                        assert(self@[a] == s0[a - 1]);
                    }
                    if b > i {
                        assert(self@[b] == s0[b - 1]);
                    }
                }
            }
        }
    }
}

/// The accumulator entry `j` before any observation: the stored width, or
/// zero beyond the accumulator's length.
pub open spec fn base_width(w: Seq<usize>, j: int) -> usize {
    if 0 <= j < w.len() {
        w[j]
    } else {
        0usize
    }
}

/// The width accumulator after a whole result set, one row at a time.
pub open spec fn spec_widths_after(rows: Seq<Seq<CellV>>) -> Seq<usize>
    decreases rows.len(),
{
    if rows.len() == 0 {
        Seq::<usize>::empty()
    } else {
        spec_observe_row(spec_widths_after(rows.drop_last()), rows.last())
    }
}

/// What observing the first `upto` cells of one row does to the accumulator,
/// entry by entry.
proof fn lemma_observe_cells_entries(w: Seq<usize>, cells: Seq<CellV>, upto: int)
    requires
        0 <= upto <= cells.len(),
    ensures
        spec_observe_cells(w, cells, upto).len() == if w.len() >= upto {
            w.len() as int
        } else {
            upto
        },
        forall|j: int|
            0 <= j < upto ==> spec_observe_cells(w, cells, upto)[j] == max_usize(
                base_width(w, j),
                spec_cell_width(#[trigger] cells[j]) as usize,
            ),
        forall|j: int|
            upto <= j < w.len() ==> #[trigger] spec_observe_cells(w, cells, upto)[j] == w[j],
    decreases upto,
{
    if upto > 0 {
        lemma_observe_cells_entries(w, cells, upto - 1);
    }
}

/// Law of the accumulator: after a result set is folded in, each
/// column's entry is exactly the maximum textual width of that column's
/// cells across all rows — an explicit maximum, independent of row order:
/// the entry exists exactly when some row reaches the column, it is an upper
/// bound on every such cell's width, and some cell attains it.
pub proof fn lemma_accumulator_is_max(rows: Seq<Seq<CellV>>, c: int)
    requires
        0 <= c,
    ensures
        c < spec_widths_after(rows).len() <==> (exists|r: int|
            0 <= r < rows.len() && c < (#[trigger] rows[r]).len()),
        forall|r: int|
            0 <= r < rows.len() && c < (#[trigger] rows[r]).len() ==> spec_cell_width(rows[r][c])
                as usize <= spec_widths_after(rows)[c],
        (exists|r: int| 0 <= r < rows.len() && c < (#[trigger] rows[r]).len()) ==> (exists|r: int|
            0 <= r < rows.len() && c < (#[trigger] rows[r]).len() && spec_cell_width(rows[r][c])
                as usize == spec_widths_after(rows)[c]),
    decreases rows.len(),
{
    if rows.len() == 0 {
    } else {
        let prev = spec_widths_after(rows.drop_last());
        let last = rows.last();
        let wa = spec_widths_after(rows);
        lemma_accumulator_is_max(rows.drop_last(), c);
        lemma_observe_cells_entries(prev, last, last.len() as int);
        assert forall|r: int| 0 <= r < rows.len() - 1 implies rows.drop_last()[r] == rows[r] by {}
        if c < last.len() {
            assert(wa[c] == max_usize(base_width(prev, c), spec_cell_width(last[c]) as usize));
            assert(c < rows[rows.len() - 1].len());
            if c < prev.len() {
                let w = choose|r: int|
                    0 <= r < rows.len() - 1 && c < (#[trigger] rows.drop_last()[r]).len()
                        && spec_cell_width(rows.drop_last()[r][c]) as usize == prev[c];
                if prev[c] >= spec_cell_width(last[c]) as usize {
                    assert(c < rows[w].len() && spec_cell_width(rows[w][c]) as usize == wa[c]);
                } else {
                    assert(spec_cell_width(rows[rows.len() - 1][c]) as usize == wa[c]);
                }
            } else {
                assert(wa[c] == spec_cell_width(last[c]) as usize);
                assert(spec_cell_width(rows[rows.len() - 1][c]) as usize == wa[c]);
            }
        } else {
            if c < prev.len() {
                assert(wa[c] == prev[c]);
                let w = choose|r: int|
                    0 <= r < rows.len() - 1 && c < (#[trigger] rows.drop_last()[r]).len()
                        && spec_cell_width(rows.drop_last()[r][c]) as usize == prev[c];
                assert(c < rows[w].len() && spec_cell_width(rows[w][c]) as usize == wa[c]);
            } else {
                assert forall|r: int| 0 <= r < rows.len() implies !(c < (
                #[trigger] rows[r]).len()) by {
                    if r < rows.len() - 1 {
                        assert(rows.drop_last()[r] == rows[r]);
                    }
                }
            }
        }
    }
}

/// Ghost form of one table's entry: its name and its buffered rows.
pub ghost struct TableEntryV {
    /// The table name.
    pub name: Seq<char>,
    /// The table's buffered describe rows, in index order.
    pub rows: Seq<RowV>,
}

/// The first position holding `name`, or the length when no entry does.
pub open spec fn name_pos(s: Seq<TableEntryV>, name: Seq<char>) -> int
    decreases s.len(),
{
    if s.len() == 0 {
        0
    } else if s[0].name == name {
        0
    } else {
        1 + name_pos(s.drop_first(), name)
    }
}

/// What registering a table does: reset the entry holding the same name to
/// an empty store, or append a fresh entry at the end.
pub open spec fn spec_add_table(s: Seq<TableEntryV>, name: Seq<char>) -> Seq<TableEntryV> {
    let i = name_pos(s, name);
    if i < s.len() {
        s.update(i, TableEntryV { name, rows: Seq::<RowV>::empty() })
    } else {
        s.push(TableEntryV { name, rows: Seq::<RowV>::empty() })
    }
}

/// Table names mapped to their buffered describe rows. Entries stand in the
/// order the list-tables query returned them — the catalog's order is
/// preserved, never resorted, so tables are processed and emitted
/// deterministically in list order.
pub struct TableMap {
    /// The per-table entries, names unique, in list order.
    pub entries: Vec<(String, Rows)>,
}

impl View for TableMap {
    type V = Seq<TableEntryV>;

    open spec fn view(&self) -> Seq<TableEntryV> {
        self.entries@.map_values(
            |e: (String, Rows)| TableEntryV { name: e.0@, rows: e.1@ },
        )
    }
}

impl TableMap {
    /// The map is well formed when its names are unique and every row store
    /// in it is well formed.
    pub open spec fn wf(&self) -> bool {
        &&& forall|i: int, j: int|
            0 <= i < j < self@.len() ==> self@[i].name != self@[j].name
        &&& forall|i: int| 0 <= i < self@.len() ==> (#[trigger] self.entries@[i]).1.wf()
    }

    /// An empty map.
    pub fn new() -> (r: TableMap)
        ensures
            r@ == Seq::<TableEntryV>::empty(),
            r.wf(),
    {
        let r = TableMap { entries: Vec::new() };
        proof {
            assert(r@ =~= Seq::<TableEntryV>::empty());
        }
        r
    }

    /// How many tables are registered.
    pub fn len(&self) -> (n: usize)
        ensures
            n == self@.len(),
    {
        self.entries.len()
    }

    /// The name of the table at position `i` of the list order.
    pub fn name_at(&self, i: usize) -> (n: &String)
        requires
            i < self@.len(),
        ensures
            n@ == self@[i as int].name,
    {
        &self.entries[i].0
    }

    /// The row store of the table at position `i` of the list order.
    pub fn rows_at(&self, i: usize) -> (r: &Rows)
        requires
            i < self@.len(),
        ensures
            r@ == self@[i as int].rows,
            self.wf() ==> r.wf(),
    {
        &self.entries[i].1
    }

    /// Register a table name: its entry becomes an empty store, replacing
    /// any rows stored under the same name, or a fresh entry is appended.
    pub fn add_table(&mut self, name: String)
        requires
            old(self).wf(),
        ensures
            final(self).wf(),
            final(self)@ == spec_add_table(old(self)@, name@),
    {
        let ghost s0 = self@;
        let mut i: usize = 0;
        while i < self.entries.len() && !crate::mapper::str_eq(
            self.entries[i].0.as_str(),
            name.as_str(),
        )
            invariant
                i <= self@.len(),
                forall|j: int| 0 <= j < i ==> self@[j].name != name@,
                self@ == s0,
                self.entries == old(self).entries,
            decreases self@.len() - i,
        {
            i = i + 1;
        }
        proof {
            lemma_name_pos_char(s0, name@, i as int);
        }
        if i < self.entries.len() {
            self.entries.remove(i);
            self.entries.insert(i, (name, Rows::new()));
            proof {
                assert(self@ =~= s0.update(
                    i as int,
                    TableEntryV { name: name@, rows: Seq::<RowV>::empty() },
                ));
            }
        } else {
            self.entries.push((name, Rows::new()));
            proof {
                assert(self@ =~= s0.push(
                    TableEntryV { name: name@, rows: Seq::<RowV>::empty() },
                ));
            }
        }
    }

    /// Store one row under the table at position `t`: the row joins that
    /// table's store at its index position, and that table's width
    /// accumulator observes the row's cells.
    pub fn insert_row(&mut self, t: usize, index: u32, row: Vec<QueryDataByCol>)
        requires
            old(self).wf(),
            t < old(self)@.len(),
        ensures
            final(self).wf(),
            final(self)@ == old(self)@.update(
                t as int,
                TableEntryV {
                    name: old(self)@[t as int].name,
                    rows: spec_insert_row(old(self)@[t as int].rows, index, cells_view(row@)),
                },
            ),
    {
        let ghost s0 = self@;
        let (nm, mut rs) = self.entries.remove(t);
        rs.insert(index, row);
        self.entries.insert(t, (nm, rs));
        proof {
            assert(self@ =~= s0.update(
                t as int,
                TableEntryV {
                    name: s0[t as int].name,
                    rows: spec_insert_row(s0[t as int].rows, index, cells_view(row@)),
                },
            ));
            assert forall|i: int| 0 <= i < self@.len() implies (
            #[trigger] self.entries@[i]).1.wf() by {
                if i != t {
                    assert(self.entries@[i] == old(self).entries@[i]);
                }
            }
        }
    }
}

/// `name_pos` returns exactly the first position holding `name`: any `i`
/// with that property is `name_pos`'s answer.
proof fn lemma_name_pos_char(s: Seq<TableEntryV>, name: Seq<char>, i: int)
    requires
        0 <= i <= s.len(),
        forall|j: int| 0 <= j < i ==> s[j].name != name,
        i < s.len() ==> s[i].name == name,
    ensures
        name_pos(s, name) == i,
    decreases s.len(),
{
    if s.len() == 0 {
    } else if i == 0 {
    } else {
        let t = s.drop_first();
        assert forall|j: int| 0 <= j < i - 1 implies t[j].name != name by {
            assert(t[j] == s[j + 1]);
        }
        if i - 1 < t.len() {
            assert(t[i - 1] == s[i]);
        }
        lemma_name_pos_char(t, name, i - 1);
    }
}

/// `find_pos` returns exactly the first position whose index is at least
/// `index`: any `i` with that property is `find_pos`'s answer.
proof fn lemma_find_pos_char(s: Seq<RowV>, index: u32, i: int)
    requires
        0 <= i <= s.len(),
        forall|j: int| 0 <= j < i ==> s[j].index < index,
        i < s.len() ==> s[i].index >= index,
    ensures
        find_pos(s, index) == i,
    decreases s.len(),
{
    if s.len() == 0 {
    } else if i == 0 {
    } else {
        assert(s[0].index < index);
        let t = s.drop_first();
        assert forall|j: int| 0 <= j < i - 1 implies t[j].index < index by {
            assert(t[j] == s[j + 1]);
        }
        if i - 1 < t.len() {
            assert(t[i - 1] == s[i]);
        }
        lemma_find_pos_char(t, index, i - 1);
    }
}

} // verus!
