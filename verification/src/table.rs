//! A plain model of the tables the tool prints: rows of cells with a text,
//! a column span and an alignment. Only the final rendering of a finished
//! row list is an outside call; which rows a table holds is verified.

use vstd::prelude::*;
use vstd::string::StringExecFns;

verus! {

/// How a cell's text is laid out in its columns.
#[derive(Debug, Clone, Copy, PartialEq, Eq)]
pub enum Align {
    Left,
    Center,
}

/// One table cell: its text, how many columns it spans, and its alignment.
#[derive(Debug, Clone, PartialEq, Eq)]
pub struct Cell {
    pub text: String,
    pub span: usize,
    pub align: Align,
}

pub struct CellView {
    pub text: Seq<char>,
    pub span: usize,
    pub align: Align,
}

impl View for Cell {
    type V = CellView;

    open spec fn view(&self) -> CellView {
        CellView { text: self.text@, span: self.span, align: self.align }
    }
}

pub open spec fn views_of_cells(row: Seq<Cell>) -> Seq<CellView> {
    row.map_values(|c: Cell| c@)
}

pub open spec fn views_of_rows(rows: Seq<Vec<Cell>>) -> Seq<Seq<CellView>> {
    rows.map_values(|row: Vec<Cell>| views_of_cells(row@))
}

/// Every cell of the row spans at least one column.
pub open spec fn row_spans_positive(row: Seq<CellView>) -> bool {
    forall|k: int| 0 <= k < row.len() ==> (#[trigger] row[k]).span >= 1
}

/// Every cell of every row spans at least one column.
pub open spec fn rows_spans_positive(rows: Seq<Seq<CellView>>) -> bool {
    forall|i: int| 0 <= i < rows.len() ==> row_spans_positive(#[trigger] rows[i])
}

/// What the table renderer prints for a finished list of rows. The result
/// depends on the rows' texts, spans and alignments alone, so it is only
/// named here, never written out.
pub uninterp spec fn table_text_of(rows: Seq<Seq<CellView>>) -> Seq<char>;

/// Relies on term_table::Table::render, under TableStyle::blank with
/// separate_rows off: column widths come from the cells alone, so the text
/// is a function of the rows alone. The renderer indexes its width table by
/// column, counting each cell's span, and a zero span would send it out of
/// bounds: every span must be at least one.
#[verifier::external_body]
pub(crate) fn render_table(rows: &Vec<Vec<Cell>>) -> (r: String)
    requires
        rows_spans_positive(views_of_rows(rows@)),
    ensures
        r@ == table_text_of(views_of_rows(rows@)),
{
    let mut table = term_table::Table::new();
    table.style = term_table::TableStyle::blank();
    table.separate_rows = false;
    for row in rows {
        table.add_row(term_table::row::Row::new(row.iter().map(|c| {
            let align = match c.align {
                Align::Left => term_table::table_cell::Alignment::Left,
                Align::Center => term_table::table_cell::Alignment::Center,
            };
            term_table::table_cell::TableCell::new_with_alignment(c.text.clone(), c.span, align)
        })));
    }
    table.render()
}

/// Element-wise view of pushing one row.
pub proof fn lemma_views_of_rows_push(v: Seq<Vec<Cell>>, x: Vec<Cell>)
    ensures
        views_of_rows(v.push(x)) == views_of_rows(v).push(views_of_cells(x@)),
{
    assert forall|i: int| 0 <= i < v.push(x).len() implies views_of_rows(v.push(x))[i]
        == views_of_rows(v).push(views_of_cells(x@))[i] by {
        assert(views_of_rows(v.push(x))[i] == views_of_cells(v.push(x)[i]@));
        if i < v.len() {
            assert(v.push(x)[i] == v[i]);
            assert(views_of_rows(v)[i] == views_of_cells(v[i]@));
        }
    }
    assert(views_of_rows(v.push(x)) =~= views_of_rows(v).push(views_of_cells(x@)));
}

/// Pushing a row of positive spans keeps every span positive.
pub proof fn lemma_spans_positive_push(rows: Seq<Seq<CellView>>, row: Seq<CellView>)
    requires
        rows_spans_positive(rows),
        row_spans_positive(row),
    ensures
        rows_spans_positive(rows.push(row)),
{
    assert forall|i: int| 0 <= i < rows.push(row).len() implies row_spans_positive(
        #[trigger] rows.push(row)[i],
    ) by {
        if i < rows.len() {
            assert(rows.push(row)[i] == rows[i]);
        } else {
            assert(rows.push(row)[i] == row);
        }
    }
}

/// Joining two row lists of positive spans keeps every span positive.
pub proof fn lemma_spans_positive_concat(a: Seq<Seq<CellView>>, b: Seq<Seq<CellView>>)
    requires
        rows_spans_positive(a),
        rows_spans_positive(b),
    ensures
        rows_spans_positive(a + b),
{
    assert forall|i: int| 0 <= i < (a + b).len() implies row_spans_positive(
        #[trigger] (a + b)[i],
    ) by {
        if i < a.len() {
            assert((a + b)[i] == a[i]);
        } else {
            assert((a + b)[i] == b[i - a.len()]);
        }
    }
}

pub open spec fn digit_seq(d: nat) -> Seq<char> {
    if d == 0 {
        "0"@
    } else if d == 1 {
        "1"@
    } else if d == 2 {
        "2"@
    } else if d == 3 {
        "3"@
    } else if d == 4 {
        "4"@
    } else if d == 5 {
        "5"@
    } else if d == 6 {
        "6"@
    } else if d == 7 {
        "7"@
    } else if d == 8 {
        "8"@
    } else {
        "9"@
    }
}

/// The decimal writing of a number, most significant digit first.
pub open spec fn spec_decimal(n: nat) -> Seq<char>
    decreases n,
{
    if n < 10 {
        digit_seq(n)
    } else {
        spec_decimal(n / 10) + digit_seq(n % 10)
    }
}

fn digit_str(d: u64) -> (r: &'static str)
    requires
        d < 10,
    ensures
        r@ == digit_seq(d as nat),
{
    if d == 0 {
        "0"
    } else if d == 1 {
        "1"
    } else if d == 2 {
        "2"
    } else if d == 3 {
        "3"
    } else if d == 4 {
        "4"
    } else if d == 5 {
        "5"
    } else if d == 6 {
        "6"
    } else if d == 7 {
        "7"
    } else if d == 8 {
        "8"
    } else {
        "9"
    }
}

/// Writes a number in decimal.
pub fn decimal(n: u64) -> (r: String)
    ensures
        r@ == spec_decimal(n as nat),
    decreases n,
{
    if n < 10 {
        digit_str(n).to_owned()
    } else {
        let mut s = decimal(n / 10);
        s.append(digit_str(n % 10));
        s
    }
}

} // verus!
