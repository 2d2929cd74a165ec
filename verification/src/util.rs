//! Text layout for the human-readable table listing: padding, centring,
//! decimal formatting, and the lines of the listing itself. The terminal
//! colours and writes belong to the caller.

use vstd::prelude::*;
use vstd::string::StringSliceAdditionalSpecFns;
use vstd::string::StrSliceExecFns;
use vstd::string::StringExecFns;
use vstd::utf8::encode_utf8;
use crate::error::Error;
use crate::store::CellV;
use crate::store::RowV;
use crate::store::TableEntryV;
use crate::store::TableMap;
use crate::store::max_usize;
use crate::store::spec_cell_text;

verus! {

/// A run of `n` spaces.
pub open spec fn spec_spaces(n: nat) -> Seq<char> {
    Seq::new(n, |i: int| ' ')
}

/// A run of `n` copies of the character `c`.
pub open spec fn spec_fill(n: nat, c: char) -> Seq<char> {
    Seq::new(n, |i: int| c)
}

/// What `pad_left` returns: `s` preceded by enough spaces to reach `len`
/// bytes, measured against the byte length of `s`; `s` unchanged when it is
/// already long enough.
pub open spec fn spec_pad_left(len: nat, s: &str) -> Seq<char> {
    let b = s.spec_bytes().len() as usize;
    if b < len {
        spec_spaces((len - b) as nat) + s@
    } else {
        s@
    }
}

/// Pad a string to the given length.
pub fn pad_left(len: usize, s: &str) -> (output: String)
    ensures
        output@ == spec_pad_left(len as nat, s),
{
    let mut output = String::new();
    let s_len = s.len();
    if s_len < len {
        let pad_len = len - s_len;
        let mut i: usize = 0;
        while i < pad_len
            invariant
                i <= pad_len,
                output@ =~= spec_spaces(i as nat),
            decreases pad_len - i,
        {
            proof {
                reveal_strlit(" ");
            }
            output.append(" ");
            proof {
                assert(output@ =~= spec_spaces((i + 1) as nat));
            }
            i = i + 1;
        }
    }
    output.append(s);
    proof {
        assert(output@ =~= spec_pad_left(len as nat, s));
    }
    output
}

/// What `center_pad` returns: `s` centred in a field of `width` characters
/// filled with `fill`'s single character, the spare character (when the gap
/// is odd) going to the right; `s` unchanged when it already fills the field.
pub open spec fn spec_center_pad(width: nat, fill: Seq<char>, s: Seq<char>) -> Seq<char> {
    if s.len() >= width {
        s
    } else {
        let gap = (width - s.len()) as nat;
        let left = gap / 2;
        spec_fill(left, fill[0]) + s + spec_fill((gap - left) as nat, fill[0])
    }
}

/// Centre a string in a field of `width` characters, filling both sides with
/// the one-character string `fill`.
pub fn center_pad(width: usize, fill: &str, s: &str) -> (output: String)
    requires
        fill@.len() == 1,
    ensures
        output@ == spec_center_pad(width as nat, fill@, s@),
{
    let n = s.unicode_len();
    if n >= width {
        return String::from_str(s);
    }
    let gap = width - n;
    let left = gap / 2;
    let right = gap - left;
    let mut output = String::new();
    let mut i: usize = 0;
    while i < left
        invariant
            i <= left,
            fill@.len() == 1,
            output@ =~= spec_fill(i as nat, fill@[0]),
        decreases left - i,
    {
        output.append(fill);
        proof {
            assert(output@ =~= spec_fill((i + 1) as nat, fill@[0]));
        }
        i = i + 1;
    }
    output.append(s);
    proof {
        assert(output@ =~= spec_fill(left as nat, fill@[0]) + s@ + spec_fill(0, fill@[0]));
    }
    let mut j: usize = 0;
    while j < right
        invariant
            j <= right,
            fill@.len() == 1,
            output@ =~= spec_fill(left as nat, fill@[0]) + s@ + spec_fill(j as nat, fill@[0]),
        decreases right - j,
    {
        output.append(fill);
        proof {
            assert(output@ =~= spec_fill(left as nat, fill@[0]) + s@ + spec_fill(
                (j + 1) as nat,
                fill@[0],
            ));
        }
        j = j + 1;
    }
    proof {
        assert(output@ =~= spec_center_pad(width as nat, fill@, s@));
    }
    output
}

/// The character of one decimal digit.
pub open spec fn digit_char(d: nat) -> char {
    if d == 0 {
        '0'
    } else if d == 1 {
        '1'
    } else if d == 2 {
        '2'
    } else if d == 3 {
        '3'
    } else if d == 4 {
        '4'
    } else if d == 5 {
        '5'
    } else if d == 6 {
        '6'
    } else if d == 7 {
        '7'
    } else if d == 8 {
        '8'
    } else {
        '9'
    }
}

/// The decimal digits of a number, most significant first.
pub open spec fn spec_digits(n: nat) -> Seq<char>
    decreases n,
{
    if n < 10 {
        seq![digit_char(n)]
    } else {
        spec_digits(n / 10).push(digit_char(n % 10))
    }
}

/// One decimal digit as text.
fn digit_str(d: u32) -> (s: &'static str)
    requires
        d < 10,
    ensures
        s@ == seq![digit_char(d as nat)],
{
    proof {
        reveal_strlit("0");
        reveal_strlit("1");
        reveal_strlit("2");
        reveal_strlit("3");
        reveal_strlit("4");
        reveal_strlit("5");
        reveal_strlit("6");
        reveal_strlit("7");
        reveal_strlit("8");
        reveal_strlit("9");
        assert("0"@ =~= seq!['0']);
        assert("1"@ =~= seq!['1']);
        assert("2"@ =~= seq!['2']);
        assert("3"@ =~= seq!['3']);
        assert("4"@ =~= seq!['4']);
        assert("5"@ =~= seq!['5']);
        assert("6"@ =~= seq!['6']);
        assert("7"@ =~= seq!['7']);
        assert("8"@ =~= seq!['8']);
        assert("9"@ =~= seq!['9']);
    }
    if d == 0 {
        "0"
    } else if d == 1 {
        "1"
    } else if d == 2 {
        "2"
    } else if d == 3 {
        "3"
    } else if d == 4 {
        "4"
    } else if d == 5 {
        "5"
    } else if d == 6 {
        "6"
    } else if d == 7 {
        "7"
    } else if d == 8 {
        "8"
    } else {
        "9"
    }
}

/// Render a number in decimal.
pub fn u32_to_dec(n: u32) -> (s: String)
    ensures
        s@ == spec_digits(n as nat),
    decreases n,
{
    if n < 10 {
        String::from_str(digit_str(n))
    } else {
        let mut s = u32_to_dec(n / 10);
        s.append(digit_str(n % 10));
        proof {
            assert(s@ =~= spec_digits(n as nat));
        }
        s
    }
}

/// The byte length of a cell's column name, as the padding sees it.
pub open spec fn spec_name_len(c: CellV) -> usize {
    encode_utf8(c.column_name).len() as usize
}

/// The widest column name among the first `upto` cells of a row.
pub open spec fn spec_max_name_len(cells: Seq<CellV>, upto: int) -> usize
    decreases upto,
{
    if upto <= 0 {
        0usize
    } else {
        max_usize(spec_max_name_len(cells, upto - 1), spec_name_len(cells[upto - 1]))
    }
}

/// A column name padded on the left with spaces to `len` bytes.
pub open spec fn spec_padded_name(len: usize, name: Seq<char>) -> Seq<char> {
    let b = encode_utf8(name).len() as usize;
    if b < len {
        spec_spaces((len - b) as nat) + name
    } else {
        name
    }
}

/// The heading over one table's listing.
pub open spec fn spec_table_header(name: Seq<char>) -> Seq<char> {
    spec_center_pad(80, "#"@, " Table '"@ + name + "' "@)
}

/// The number shown for a row: its index plus one, wrapping at the limit.
pub open spec fn spec_display_index(idx: u32) -> nat {
    if idx == u32::MAX {
        0
    } else {
        (idx + 1) as nat
    }
}

/// The heading over one row of the listing.
pub open spec fn spec_row_header(idx: u32) -> Seq<char> {
    spec_center_pad(80, "-"@, " Row "@ + spec_digits(spec_display_index(idx)) + " "@)
}

/// One column's line: the padded column name, a separator, and the cell's
/// display text.
pub open spec fn spec_col_line(width: usize, c: CellV) -> Seq<char> {
    spec_padded_name(width, c.column_name) + ": "@ + spec_cell_text(c)
}

/// The lines of one row: its heading, one line per column, and a blank
/// line after every row whose index value lies below the row count less
/// one.
pub open spec fn spec_row_lines(idx: u32, cells: Seq<CellV>, rows_len: int) -> Seq<Seq<char>> {
    let width = spec_max_name_len(cells, cells.len() as int);
    let cols = Seq::new(cells.len(), |k: int| spec_col_line(width, cells[k]));
    let tail = if (idx as int) < rows_len - 1 {
        seq![Seq::<char>::empty()]
    } else {
        Seq::<Seq<char>>::empty()
    };
    seq![spec_row_header(idx)] + cols + tail
}

/// The lines of the first `upto` rows of one table.
pub open spec fn spec_rows_lines(rows: Seq<RowV>, upto: int) -> Seq<Seq<char>>
    decreases upto,
{
    if upto <= 0 {
        Seq::<Seq<char>>::empty()
    } else {
        spec_rows_lines(rows, upto - 1) + spec_row_lines(
            rows[upto - 1].index,
            rows[upto - 1].cells,
            rows.len() as int,
        )
    }
}

/// The lines of the first `upto` tables of the listing.
pub open spec fn spec_tables_lines(ts: Seq<TableEntryV>, upto: int) -> Seq<Seq<char>>
    decreases upto,
{
    if upto <= 0 {
        Seq::<Seq<char>>::empty()
    } else {
        spec_tables_lines(ts, upto - 1) + seq![spec_table_header(ts[upto - 1].name)]
            + spec_rows_lines(ts[upto - 1].rows, ts[upto - 1].rows.len() as int)
    }
}

/// Whether some buffered row carries no columns, so no maximum column
/// width exists for it.
pub open spec fn spec_has_empty_row(ts: Seq<TableEntryV>) -> bool {
    exists|i: int, j: int|
        0 <= i < ts.len() && 0 <= j < ts[i].rows.len() && (#[trigger] ts[i].rows[j]).cells.len()
            == 0
}

/// Appending one string appends its view to the sequence of views.
proof fn lemma_map_view_push(v0: Seq<String>, v1: Seq<String>, x: String)
    requires
        v1 == v0.push(x),
    ensures
        v1.map_values(|s: String| s@) == v0.map_values(|s: String| s@).push(x@),
{
    assert forall|t: int| #![trigger v1[t]] 0 <= t < v1.len() implies v1.map_values(
        |s: String| s@,
    )[t] == v0.map_values(|s: String| s@).push(x@)[t] by {
        if t < v0.len() {
            assert(v1[t] == v0[t]);
        }
    }
    assert(v1.map_values(|s: String| s@) =~= v0.map_values(|s: String| s@).push(x@));
}

/// Pretty print table column information: the lines of the whole listing,
/// table by table in list order, each row under its heading with every
/// column's padded name and display text. Fails with the maximum error
/// when a buffered row carries no columns.
pub fn pretty_print_tables(tables: &TableMap) -> (r: Result<Vec<String>, Error>)
    ensures
        r is Ok <==> !spec_has_empty_row(tables@),
        r is Ok ==> r->Ok_0@.map_values(|s: String| s@) == spec_tables_lines(
            tables@,
            tables@.len() as int,
        ),
        r is Err ==> r->Err_0 is Max,
{
    let mut lines: Vec<String> = Vec::new();
    let n = tables.len();
    let mut i: usize = 0;
    while i < n
        invariant
            i <= n,
            n == tables@.len(),
            forall|a: int, b: int|
                0 <= a < i && 0 <= b < tables@[a].rows.len() ==> (#[trigger] tables@[a].rows[b])
                    .cells.len() != 0,
            lines@.map_values(|s: String| s@) =~= spec_tables_lines(tables@, i as int),
        decreases n - i,
    {
        let name = tables.name_at(i);
        let mut title = String::from_str(" Table '");
        title.append(name.as_str());
        title.append("' ");
        proof {
            reveal_strlit("#");
            reveal_strlit("-");
        }
        let hl = center_pad(80, "#", title.as_str());
        let ghost prev_h = lines@;
        lines.push(hl);
        proof {
            lemma_map_view_push(prev_h, lines@, hl);
            assert(lines@.map_values(|s: String| s@) =~= spec_tables_lines(tables@, i as int)
                + seq![spec_table_header(tables@[i as int].name)]);
        }
        let ghost base = lines@.map_values(|s: String| s@);
        let rows = tables.rows_at(i);
        let m = rows.len();
        let mut j: usize = 0;
        while j < m
            invariant
                j <= m,
                m == rows@.len(),
                rows@ == tables@[i as int].rows,
                i < tables@.len(),
                forall|b: int| 0 <= b < j ==> (#[trigger] rows@[b]).cells.len() != 0,
                base == spec_tables_lines(tables@, i as int) + seq![
                    spec_table_header(tables@[i as int].name),
                ],
                lines@.map_values(|s: String| s@) =~= base + spec_rows_lines(rows@, j as int),
            decreases m - j,
        {
            let (idx, cells) = rows.row_at(j);
            let disp: u32 = if idx == u32::MAX {
                0
            } else {
                idx + 1
            };
            let mut rh = String::from_str(" Row ");
            let dec = u32_to_dec(disp);
            rh.append(dec.as_str());
            rh.append(" ");
            proof {
                reveal_strlit("-");
                assert(rh@ == " Row "@ + spec_digits(spec_display_index(idx)) + " "@);
            }
            let rh_line = center_pad(80, "-", rh.as_str());
            if cells.len() == 0 {
                proof {
                    assert(0 <= j < (tables@[i as int]).rows.len() && tables@[i as int].rows[
                        j as int].cells.len() == 0);
                    assert(spec_has_empty_row(tables@));
                }
                return Result::Err(Error::Max);
            }
            let ghost prev_r = lines@;
            lines.push(rh_line);
            proof {
                lemma_map_view_push(prev_r, lines@, rh_line);
            }
            let ghost rowbase = lines@.map_values(|s: String| s@);
            let ghost cs = crate::store::cells_view(cells@);
            let mut width: usize = 0;
            let mut k: usize = 0;
            while k < cells.len()
                invariant
                    k <= cells@.len(),
                    cs == crate::store::cells_view(cells@),
                    width == spec_max_name_len(cs, k as int),
                decreases cells@.len() - k,
            {
                proof {
                    assert(cs[k as int] == cells@[k as int]@);
                }
                let l = cells[k].column_name.as_str().len();
                if l > width {
                    width = l;
                }
                k = k + 1;
            }
            let mut k2: usize = 0;
            while k2 < cells.len()
                invariant
                    k2 <= cells@.len(),
                    cs == crate::store::cells_view(cells@),
                    width == spec_max_name_len(cs, cs.len() as int),
                    rowbase.len() >= 1,
                    lines@.map_values(|s: String| s@) =~= rowbase + Seq::new(
                        k2 as nat,
                        |k: int| spec_col_line(width, cs[k]),
                    ),
                decreases cells@.len() - k2,
            {
                proof {
                    assert(cs[k2 as int] == cells@[k2 as int]@);
                }
                let c = &cells[k2];
                let mut line = pad_left(width, c.column_name.as_str());
                line.append(": ");
                let text = c.display_text();
                line.append(text.as_str());
                proof {
                    assert(line@ == spec_col_line(width, cs[k2 as int]));
                }
                let ghost prev_c = lines@;
                lines.push(line);
                proof {
                    lemma_map_view_push(prev_c, lines@, line);
                    assert(lines@.map_values(|s: String| s@) =~= rowbase + Seq::new(
                        (k2 + 1) as nat,
                        |k: int| spec_col_line(width, cs[k]),
                    ));
                }
                k2 = k2 + 1;
            }
            if (idx as usize) < m - 1 {
                let blank = String::new();
                let ghost prev_b = lines@;
                lines.push(blank);
                proof {
                    lemma_map_view_push(prev_b, lines@, blank);
                }
            }
            proof {
                assert(cs =~= tables@[i as int].rows[j as int].cells);
                assert(lines@.map_values(|s: String| s@) =~= base + spec_rows_lines(
                    rows@,
                    j + 1,
                ));
            }
            j = j + 1;
        }
        proof {
            assert(lines@.map_values(|s: String| s@) =~= spec_tables_lines(tables@, i + 1));
        }
        i = i + 1;
    }
    Result::Ok(lines)
}

} // verus!
