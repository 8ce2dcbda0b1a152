//! Finding the cell of a grid that stands for today's date.

use vstd::prelude::*;
use crate::cell::{cell_text, CellValue, CellView, Grid};
use crate::number::{decimal, decimal_chars, parse_u32, parse_u32_chars};
use crate::text::{
    contains,
    contains_chars,
    split,
    split_chars,
    trim,
    trim_chars,
    views,
};
use crate::width::{normalize, normalize_chars};

verus! {

/// The month and day that the locator looks for.
#[derive(Clone, Copy, Debug, PartialEq, Eq, Structural)]
pub struct Today {
    pub month: u32,
    pub day: u32,
}

/// The ways in which a cell can stand for today, in the order in which they
/// are tried.
#[derive(Clone, Copy, Debug, PartialEq, Eq, Structural)]
pub enum MatchRule {
    /// A date-typed cell with today's month and day.
    TypedDate,
    /// A whole number equal to today's day of the month.
    Integer,
    /// Text that, normalized and trimmed, reads as today's day of the month.
    NumericText,
    /// Text of the form month/day or year/month/day with today's month and day.
    SlashDate,
    /// Text that holds today's date written as month/day or in long form.
    DatePhrase,
}

/// Today's date written as month, slash, day.
pub open spec fn slash_phrase(today: Today) -> Seq<char> {
    decimal(today.month as nat) + seq!['/'] + decimal(today.day as nat)
}

/// Today's date in long form: month, the month sign, day, the day sign.
pub open spec fn long_phrase(today: Today) -> Seq<char> {
    decimal(today.month as nat) + seq!['月'] + decimal(today.day as nat) + seq!['日']
}

/// The first rule: the cell is date-typed and carries today's month and day.
/// The year is not looked at.
pub open spec fn typed_date_matches(c: CellView, today: Today) -> bool {
    c matches CellView::Date { month, day, .. } && month == today.month && day == today.day
}

/// The second rule: the cell is a whole number equal to today's day. The
/// month is not looked at. Text that reads as a number is left to the third
/// rule.
pub open spec fn integer_matches(c: CellView, today: Today) -> bool {
    c matches CellView::Number(n) && n == today.day
}

/// The third rule: the cell's text, normalized and trimmed, is a number equal
/// to today's day.
pub open spec fn numeric_text_matches(c: CellView, today: Today) -> bool {
    parse_u32(trim(normalize(cell_text(c)))) == Some(today.day)
}

/// The month and day fields of a text split at slashes: the two fields when
/// there are exactly two, the second and third when there are more.
pub open spec fn slash_fields(parts: Seq<Seq<char>>) -> Option<(Seq<char>, Seq<char>)> {
    if parts.len() == 2 {
        Some((parts[0], parts[1]))
    } else if parts.len() >= 3 {
        Some((parts[1], parts[2]))
    } else {
        None
    }
}

/// The fourth rule: the cell's text, normalized and trimmed and then split at
/// slashes, gives a month field and a day field that, trimmed in turn, read
/// as today's month and day.
pub open spec fn slash_date_matches(c: CellView, today: Today) -> bool {
    slash_fields(split(trim(normalize(cell_text(c))), '/')) matches Some(fields) && parse_u32(
        trim(fields.0),
    ) == Some(today.month) && parse_u32(trim(fields.1)) == Some(today.day)
}

/// The fifth rule: the cell's normalized text holds today's date as a phrase.
pub open spec fn phrase_matches(c: CellView, today: Today) -> bool {
    let text = normalize(cell_text(c));
    contains(text, slash_phrase(today)) || contains(text, long_phrase(today))
}

/// The first rule, in the fixed order, by which `c` stands for today.
pub open spec fn first_rule(c: CellView, today: Today) -> Option<MatchRule> {
    if typed_date_matches(c, today) {
        Some(MatchRule::TypedDate)
    } else if integer_matches(c, today) {
        Some(MatchRule::Integer)
    } else if numeric_text_matches(c, today) {
        Some(MatchRule::NumericText)
    } else if slash_date_matches(c, today) {
        Some(MatchRule::SlashDate)
    } else if phrase_matches(c, today) {
        Some(MatchRule::DatePhrase)
    } else {
        None
    }
}

/// Whether `c` stands for today by any rule.
pub open spec fn cell_matches(c: CellView, today: Today) -> bool {
    first_rule(c, today) is Some
}

/// Whether position (`i`, `j`) comes before (`row`, `col`) when rows are read
/// top to bottom and each row left to right.
pub open spec fn scanned_before(i: int, j: int, row: int, col: int) -> bool {
    i < row || (i == row && j < col)
}

/// Whether (`row`, `col`) is the first cell of `g`, in reading order, that
/// stands for today.
pub open spec fn is_first_match(g: Seq<Seq<CellView>>, today: Today, row: int, col: int) -> bool {
    &&& 0 <= row < g.len()
    &&& 0 <= col < g[row].len()
    &&& cell_matches(g[row][col], today)
    &&& forall|i: int, j: int|
        0 <= i < g.len() && 0 <= j < g[i].len() && scanned_before(i, j, row, col)
            ==> !cell_matches(#[trigger] g[i][j], today)
}

/// Whether no cell of `g` stands for today.
pub open spec fn no_match(g: Seq<Seq<CellView>>, today: Today) -> bool {
    forall|i: int, j: int|
        0 <= i < g.len() && 0 <= j < g[i].len() ==> !cell_matches(#[trigger] g[i][j], today)
}

/// A grid has at most one first match, and a grid with a first match is not
/// one without a match: the two outcomes of the locator exclude each other
/// and the position it reports is the only one it could report.
pub proof fn lemma_first_match_unique(
    g: Seq<Seq<CellView>>,
    today: Today,
    row: int,
    col: int,
    other_row: int,
    other_col: int,
)
    requires
        is_first_match(g, today, row, col),
    ensures
        !no_match(g, today),
        is_first_match(g, today, other_row, other_col) ==> other_row == row && other_col == col,
{
    assert(cell_matches(g[row][col], today));
    if is_first_match(g, today, other_row, other_col) {
        assert(cell_matches(g[other_row][other_col], today));
        if scanned_before(row, col, other_row, other_col) {
            assert(!cell_matches(g[row][col], today));
        }
        if scanned_before(other_row, other_col, row, col) {
            assert(!cell_matches(g[other_row][other_col], today));
        }
    }
}

/// Whether `r` is `Some(v)` in `Option<u32>`.
fn reads_as(r: Option<u32>, v: u32) -> (b: bool)
    ensures
        b == (r == Some(v)),
{
    match r {
        Some(x) => x == v,
        None => false,
    }
}

/// Today's date written as month, slash, day.
fn slash_phrase_chars(today: Today) -> (out: Vec<char>)
    ensures
        out@ == slash_phrase(today),
{
    let mut out = decimal_chars(today.month as u64);
    out.push('/');
    let mut day = decimal_chars(today.day as u64);
    out.append(&mut day);
    out
}

/// Today's date in long form.
fn long_phrase_chars(today: Today) -> (out: Vec<char>)
    ensures
        out@ == long_phrase(today),
{
    let mut out = decimal_chars(today.month as u64);
    out.push('月');
    let mut day = decimal_chars(today.day as u64);
    out.append(&mut day);
    out.push('日');
    out
}

/// Whether `text`, split at slashes, gives a month field and a day field
/// that read as today's month and day.
fn slash_date_in(text: &Vec<char>, today: Today) -> (b: bool)
    ensures
        b == (slash_fields(split(text@, '/')) matches Some(fields) && parse_u32(trim(fields.0))
            == Some(today.month) && parse_u32(trim(fields.1)) == Some(today.day)),
{
    let parts = split_chars(text, '/');
    let ghost fields = split(text@, '/');
    assert(parts@.len() == fields.len());
    if parts.len() < 2 {
        return false;
    }
    let at: usize = if parts.len() == 2 {
        0
    } else {
        1
    };
    assert(views(parts@)[at as int] == parts@[at as int]@);
    assert(views(parts@)[at + 1] == parts@[at + 1]@);
    let month = parse_u32_chars(&trim_chars(&parts[at]));
    let day = parse_u32_chars(&trim_chars(&parts[at + 1]));
    reads_as(month, today.month) && reads_as(day, today.day)
}

/// Tells by which rule, if any, `cell` stands for today. The rules are tried
/// in their fixed order and the first that holds is reported.
pub fn match_rule(cell: &CellValue, today: Today) -> (r: Option<MatchRule>)
    ensures
        r == first_rule(cell@, today),
{
    match cell {
        CellValue::Date { month, day, .. } => {
            if *month == today.month && *day == today.day {
                return Some(MatchRule::TypedDate);
            }
        },
        CellValue::Number(n) => {
            if *n == today.day as i64 {
                return Some(MatchRule::Integer);
            }
        },
        _ => {},
    }
    let text = cell.text_chars();
    let norm = normalize_chars(&text);
    let trimmed = trim_chars(&norm);
    if reads_as(parse_u32_chars(&trimmed), today.day) {
        return Some(MatchRule::NumericText);
    }
    if slash_date_in(&trimmed, today) {
        return Some(MatchRule::SlashDate);
    }
    let slash = slash_phrase_chars(today);
    let long = long_phrase_chars(today);
    if contains_chars(&norm, &slash) || contains_chars(&norm, &long) {
        return Some(MatchRule::DatePhrase);
    }
    None
}

/// Finds the cell that stands for today: the first one, reading the rows top
/// to bottom and each row left to right, that any rule accepts. Returns its
/// zero-based row and column, or `None` when no cell of the grid qualifies.
pub fn locate_date(grid: &Grid, today: Today) -> (found: Option<(usize, usize)>)
    ensures
        match found {
            Some((row, col)) => is_first_match(grid@, today, row as int, col as int),
            None => no_match(grid@, today),
        },
{
    let mut i: usize = 0;
    while i < grid.rows.len()
        invariant
            i <= grid.rows.len(),
            forall|a: int, b: int|
                0 <= a < i && 0 <= b < grid@[a].len() ==> !cell_matches(
                    #[trigger] grid@[a][b],
                    today,
                ),
        decreases grid.rows.len() - i,
    {
        let row = &grid.rows[i];
        let mut j: usize = 0;
        while j < row.len()
            invariant
                i < grid.rows.len(),
                row == &grid.rows@[i as int],
                j <= row.len(),
                forall|a: int, b: int|
                    0 <= a < i && 0 <= b < grid@[a].len() ==> !cell_matches(
                        #[trigger] grid@[a][b],
                        today,
                    ),
                forall|b: int| 0 <= b < j ==> !cell_matches(#[trigger] grid@[i as int][b], today),
            decreases row.len() - j,
        {
            assert(grid@[i as int][j as int] == row@[j as int]@);
            if match_rule(&row[j], today).is_some() {
                return Some((i, j));
            }
            j += 1;
        }
        i += 1;
    }
    None
}

} // verus!
