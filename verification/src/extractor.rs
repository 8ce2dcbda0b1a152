//! Reading the staff assigned to each shift from the rows beneath the date
//! cell.

use vstd::prelude::*;
use crate::cell::{cell_text, row_view, CellValue, CellView, Grid};
use crate::chars::string_of;
use crate::text::{trim, trim_chars};

verus! {

/// The four shifts of a day, in the order in which their keywords are tried.
#[derive(Clone, Copy, Debug, PartialEq, Eq, Structural)]
pub enum ShiftCategory {
    Early,
    Day,
    Late,
    Night,
}

impl ShiftCategory {
    /// The single character whose presence in a shift marker names this shift.
    pub open spec fn keyword(self) -> char {
        match self {
            ShiftCategory::Early => '早',
            ShiftCategory::Day => '日',
            ShiftCategory::Late => '遅',
            ShiftCategory::Night => '夜',
        }
    }
}

/// The shift that a marker text names: the first, in the fixed order, whose
/// keyword occurs in it.
pub open spec fn classify(marker: Seq<char>) -> Option<ShiftCategory> {
    if marker.contains(ShiftCategory::Early.keyword()) {
        Some(ShiftCategory::Early)
    } else if marker.contains(ShiftCategory::Day.keyword()) {
        Some(ShiftCategory::Day)
    } else if marker.contains(ShiftCategory::Late.keyword()) {
        Some(ShiftCategory::Late)
    } else if marker.contains(ShiftCategory::Night.keyword()) {
        Some(ShiftCategory::Night)
    } else {
        None
    }
}

/// The staff name of a row, looked for from column `from` on: the trimmed
/// text of the first cell left of `shift_col` that is not blank.
pub open spec fn staff_name_from(row: Seq<CellView>, shift_col: int, from: int) -> Option<
    Seq<char>,
>
    decreases shift_col - from,
{
    if from < 0 || from >= shift_col || from >= row.len() {
        None
    } else {
        let shown = trim(cell_text(row[from]));
        if shown.len() > 0 {
            Some(shown)
        } else {
            staff_name_from(row, shift_col, from + 1)
        }
    }
}

/// What one row contributes: the shift its marker names and the staff name
/// found left of the marker. A row that is too short to have a marker, whose
/// marker is blank, that has no name, or whose marker names no shift
/// contributes nothing.
pub open spec fn row_assignment(row: Seq<CellView>, shift_col: int) -> Option<
    (ShiftCategory, Seq<char>),
> {
    if row.len() <= shift_col || shift_col < 0 {
        None
    } else {
        let marker = trim(cell_text(row[shift_col]));
        let name = staff_name_from(row, shift_col, 0);
        let shift = classify(marker);
        if marker.len() > 0 && name is Some && shift is Some {
            Some((shift->0, name->0))
        } else {
            None
        }
    }
}

/// The names collected for `shift` from the rows `first_row .. upto` of `g`,
/// in row order.
pub open spec fn collected(
    g: Seq<Seq<CellView>>,
    first_row: int,
    shift_col: int,
    shift: ShiftCategory,
    upto: int,
) -> Seq<Seq<char>>
    decreases upto,
{
    if upto <= first_row || upto <= 0 {
        Seq::<Seq<char>>::empty()
    } else {
        let earlier = collected(g, first_row, shift_col, shift, upto - 1);
        match row_assignment(g[upto - 1], shift_col) {
            Some((found, name)) => if found == shift {
                earlier.push(name)
            } else {
                earlier
            },
            None => earlier,
        }
    }
}

/// The names of the staff on `shift`: collected from every row from the
/// second row beneath the date cell to the end of the grid.
pub open spec fn shift_names(
    g: Seq<Seq<CellView>>,
    date_row: int,
    shift_col: int,
    shift: ShiftCategory,
) -> Seq<Seq<char>> {
    collected(g, date_row + 2, shift_col, shift, g.len() as int)
}

/// A row is attributed to at most one shift: over the four shifts together,
/// no more names are collected than rows are read.
pub proof fn lemma_one_shift_per_row(
    g: Seq<Seq<CellView>>,
    first_row: int,
    shift_col: int,
    upto: int,
)
    requires
        0 <= first_row <= upto,
    ensures
        collected(g, first_row, shift_col, ShiftCategory::Early, upto).len() + collected(
            g,
            first_row,
            shift_col,
            ShiftCategory::Day,
            upto,
        ).len() + collected(g, first_row, shift_col, ShiftCategory::Late, upto).len() + collected(
            g,
            first_row,
            shift_col,
            ShiftCategory::Night,
            upto,
        ).len() <= upto - first_row,
    decreases upto,
{
    if upto > first_row {
        lemma_one_shift_per_row(g, first_row, shift_col, upto - 1);
    }
}

/// The views of a sequence of strings.
pub open spec fn text_views(names: Seq<String>) -> Seq<Seq<char>> {
    Seq::new(names.len(), |k: int| names[k]@)
}

/// The staff names found for each shift, in the order of their rows.
#[derive(Clone, Debug, PartialEq, Eq)]
pub struct Roster {
    pub early: Vec<String>,
    pub day: Vec<String>,
    pub late: Vec<String>,
    pub night: Vec<String>,
}

impl Roster {
    /// The names listed for `shift`.
    pub open spec fn names(&self, shift: ShiftCategory) -> Seq<Seq<char>> {
        match shift {
            ShiftCategory::Early => text_views(self.early@),
            ShiftCategory::Day => text_views(self.day@),
            ShiftCategory::Late => text_views(self.late@),
            ShiftCategory::Night => text_views(self.night@),
        }
    }

    /// Whether the roster lists, for every shift, exactly the names collected
    /// from the rows `first_row .. upto` of `g`.
    pub open spec fn holds(
        &self,
        g: Seq<Seq<CellView>>,
        first_row: int,
        shift_col: int,
        upto: int,
    ) -> bool {
        forall|shift: ShiftCategory| #[trigger]
            self.names(shift) == collected(g, first_row, shift_col, shift, upto)
    }

    /// The roster without any name.
    pub fn new() -> (roster: Roster)
        ensures
            forall|shift: ShiftCategory| #[trigger] roster.names(shift).len() == 0,
    {
        Roster { early: Vec::new(), day: Vec::new(), late: Vec::new(), night: Vec::new() }
    }

    /// Lists `name` last among the names of `shift`.
    pub fn add(&mut self, shift: ShiftCategory, name: String)
        ensures
            final(self).names(shift) == old(self).names(shift).push(name@),
            forall|other: ShiftCategory|
                other != shift ==> #[trigger] final(self).names(other) == old(self).names(other),
    {
        match shift {
            ShiftCategory::Early => {
                self.early.push(name);
            },
            ShiftCategory::Day => {
                self.day.push(name);
            },
            ShiftCategory::Late => {
                self.late.push(name);
            },
            ShiftCategory::Night => {
                self.night.push(name);
            },
        }
        assert(final(self).names(shift) =~= old(self).names(shift).push(name@));
    }
}

/// Whether `c` occurs in `v`.
fn has_char(v: &Vec<char>, c: char) -> (r: bool)
    ensures
        r == v@.contains(c),
{
    let mut i: usize = 0;
    while i < v.len()
        invariant
            i <= v.len(),
            forall|k: int| 0 <= k < i ==> v@[k] != c,
        decreases v.len() - i,
    {
        if v[i] == c {
            return true;
        }
        i += 1;
    }
    false
}

/// Names the shift of a marker text by its keyword; of several keywords the
/// one of the earliest shift in the fixed order decides.
pub fn classify_marker(marker: &Vec<char>) -> (shift: Option<ShiftCategory>)
    ensures
        shift == classify(marker@),
{
    if has_char(marker, '早') {
        Some(ShiftCategory::Early)
    } else if has_char(marker, '日') {
        Some(ShiftCategory::Day)
    } else if has_char(marker, '遅') {
        Some(ShiftCategory::Late)
    } else if has_char(marker, '夜') {
        Some(ShiftCategory::Night)
    } else {
        None
    }
}

/// Finds the staff name of a row: the trimmed text of its leftmost cell,
/// left of the marker column, that is not blank.
pub fn find_staff_name(row: &Vec<CellValue>, shift_col: usize) -> (name: Option<Vec<char>>)
    ensures
        match name {
            Some(chars) => staff_name_from(row_view(row@), shift_col as int, 0) == Some(chars@),
            None => staff_name_from(row_view(row@), shift_col as int, 0) is None,
        },
{
    let mut col: usize = 0;
    while col < shift_col && col < row.len()
        invariant
            col <= shift_col,
            col <= row.len(),
            staff_name_from(row_view(row@), shift_col as int, 0) == staff_name_from(
                row_view(row@),
                shift_col as int,
                col as int,
            ),
        decreases shift_col - col,
    {
        assert(row_view(row@)[col as int] == row@[col as int]@);
        let shown = trim_chars(&row[col].text_chars());
        if shown.len() > 0 {
            return Some(shown);
        }
        col += 1;
    }
    None
}

/// Reads one row: the shift that its marker cell names and the staff name
/// left of it, or `None` when the row contributes nothing.
pub fn assign_row(row: &Vec<CellValue>, shift_col: usize) -> (r: Option<(ShiftCategory, String)>)
    ensures
        match r {
            Some((shift, name)) => row_assignment(row_view(row@), shift_col as int) == Some(
                (shift, name@),
            ),
            None => row_assignment(row_view(row@), shift_col as int) is None,
        },
{
    if row.len() <= shift_col {
        return None;
    }
    assert(row_view(row@)[shift_col as int] == row@[shift_col as int]@);
    let marker = trim_chars(&row[shift_col].text_chars());
    if marker.len() == 0 {
        return None;
    }
    let name = match find_staff_name(row, shift_col) {
        Some(chars) => chars,
        None => {
            return None;
        },
    };
    match classify_marker(&marker) {
        Some(shift) => Some((shift, string_of(&name))),
        None => None,
    }
}

/// Collects the staff of each shift. Rows are read from the second row
/// beneath `date_row` to the end of the grid; in each, the cell in column
/// `shift_col` is the shift marker and the name stands left of it.
pub fn extract_roster(grid: &Grid, date_row: usize, shift_col: usize) -> (roster: Roster)
    ensures
        forall|shift: ShiftCategory| #[trigger]
            roster.names(shift) == shift_names(grid@, date_row as int, shift_col as int, shift),
{
    let mut roster = Roster::new();
    let n = grid.rows.len();
    if date_row >= n || n - date_row <= 2 {
        assert(roster.holds(grid@, date_row + 2, shift_col as int, n as int)) by {
            assert forall|shift: ShiftCategory| #[trigger]
                roster.names(shift) == collected(
                    grid@,
                    date_row + 2,
                    shift_col as int,
                    shift,
                    n as int,
                ) by {
                assert(roster.names(shift).len() == 0);
                assert(roster.names(shift) =~= Seq::<Seq<char>>::empty());
            }
        }
        return roster;
    }
    let first: usize = date_row + 2;
    let mut i: usize = first;
    assert(roster.holds(grid@, first as int, shift_col as int, i as int)) by {
        assert forall|shift: ShiftCategory| #[trigger]
            roster.names(shift) == collected(
                grid@,
                first as int,
                shift_col as int,
                shift,
                i as int,
            ) by {
            assert(roster.names(shift).len() == 0);
            assert(roster.names(shift) =~= Seq::<Seq<char>>::empty());
        }
    }
    while i < n
        invariant
            n == grid.rows.len(),
            first == date_row + 2,
            first <= i <= n,
            roster.holds(grid@, first as int, shift_col as int, i as int),
        decreases n - i,
    {
        let ghost before = roster;
        assert(grid@[i as int] == row_view(grid.rows@[i as int]@));
        match assign_row(&grid.rows[i], shift_col) {
            Some((shift, name)) => {
                roster.add(shift, name);
            },
            None => {},
        }
        i += 1;
        assert(roster.holds(grid@, first as int, shift_col as int, i as int)) by {
            assert forall|shift: ShiftCategory| #[trigger]
                roster.names(shift) == collected(
                    grid@,
                    first as int,
                    shift_col as int,
                    shift,
                    i as int,
                ) by {
                assert(before.names(shift) == collected(
                    grid@,
                    first as int,
                    shift_col as int,
                    shift,
                    i - 1,
                ));
            }
        }
    }
    roster
}

} // verus!
