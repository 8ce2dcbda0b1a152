//! Cells of a schedule sheet and the grid they form.

use vstd::prelude::*;
use crate::chars::{chars_of, same_chars};
use crate::number::{signed_decimal, signed_decimal_chars};

verus! {

/// The value of one spreadsheet cell.
#[derive(Clone, Debug, PartialEq, Eq)]
pub enum CellValue {
    /// A cell without content.
    Empty,
    /// A cell that holds a whole number.
    Number(i64),
    /// A cell with native date typing: the month and day of its date, and
    /// the text that the cell shows.
    Date { month: u32, day: u32, text: String },
    /// A cell that holds text.
    Text(String),
}

/// The mathematical model of a cell.
pub enum CellView {
    Empty,
    Number(int),
    Date { month: nat, day: nat, text: Seq<char> },
    Text(Seq<char>),
}

impl View for CellValue {
    type V = CellView;

    open spec fn view(&self) -> CellView {
        match *self {
            CellValue::Empty => CellView::Empty,
            CellValue::Number(n) => CellView::Number(n as int),
            CellValue::Date { month, day, text } => CellView::Date {
                month: month as nat,
                day: day as nat,
                text: text@,
            },
            CellValue::Text(text) => CellView::Text(text@),
        }
    }
}

/// A cell rendered as text: nothing for an empty cell, decimal notation for a
/// number, and the text itself for a date or text cell.
pub open spec fn cell_text(c: CellView) -> Seq<char> {
    match c {
        CellView::Empty => Seq::<char>::empty(),
        CellView::Number(n) => signed_decimal(n),
        CellView::Date { text, .. } => text,
        CellView::Text(text) => text,
    }
}

/// The cell that stands for a text together with an integer reading of it: a
/// number when the text is exactly that integer in decimal notation, an empty
/// cell when there is no text, and a text cell otherwise.
pub open spec fn reading_cell(integer: Option<i64>, text: Seq<char>) -> CellView {
    if integer is Some && text == signed_decimal(integer->0 as int) {
        CellView::Number(integer->0 as int)
    } else if text.len() == 0 {
        CellView::Empty
    } else {
        CellView::Text(text)
    }
}

/// The models of the cells of one row.
pub open spec fn row_view(row: Seq<CellValue>) -> Seq<CellView> {
    Seq::new(row.len(), |j: int| row[j]@)
}

impl CellValue {
    /// The cell rendered as text.
    pub fn text_chars(&self) -> (out: Vec<char>)
        ensures
            out@ == cell_text(self@),
    {
        match self {
            CellValue::Empty => Vec::new(),
            CellValue::Number(n) => signed_decimal_chars(*n),
            CellValue::Date { text, .. } => chars_of(text.as_str()),
            CellValue::Text(text) => chars_of(text.as_str()),
        }
    }

    /// Classifies a cell from its text and from the integer, if any, that the
    /// sheet reports for it.
    pub fn from_reading(integer: Option<i64>, text: String) -> (cell: CellValue)
        ensures
            cell@ == reading_cell(integer, text@),
    {
        let shown = chars_of(text.as_str());
        match integer {
            Some(n) => {
                let digits = signed_decimal_chars(n);
                if same_chars(&shown, &digits) {
                    return CellValue::Number(n);
                }
            },
            None => {},
        }
        if shown.len() == 0 {
            CellValue::Empty
        } else {
            CellValue::Text(text)
        }
    }
}

/// A sheet as rows of cells. Rows may differ in length.
#[derive(Clone, Debug, PartialEq, Eq)]
pub struct Grid {
    pub rows: Vec<Vec<CellValue>>,
}

impl View for Grid {
    type V = Seq<Seq<CellView>>;

    open spec fn view(&self) -> Seq<Seq<CellView>> {
        Seq::new(self.rows@.len(), |i: int| row_view(self.rows@[i]@))
    }
}

impl Grid {
    /// The grid with the given rows.
    pub fn new(rows: Vec<Vec<CellValue>>) -> (grid: Grid)
        ensures
            grid.rows == rows,
    {
        Grid { rows }
    }

    /// The number of rows.
    pub fn row_count(&self) -> (n: usize)
        ensures
            n == self@.len(),
    {
        self.rows.len()
    }
}

} // verus!
