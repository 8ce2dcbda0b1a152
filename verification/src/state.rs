//! The roster that the window shows, and what loading a sheet does to it.

use vstd::prelude::*;
use crate::calendar::{date_heading, CalendarDay};
use crate::cell::{CellView, Grid};
use crate::chars::push_chars;
use crate::extractor::{extract_roster, shift_names, text_views, Roster, ShiftCategory};
use crate::locator::{is_first_match, locate_date, no_match, Today};
use crate::number::{decimal, decimal_chars};

verus! {

/// Why loading a sheet gave no roster.
#[derive(Clone, Debug, PartialEq, Eq)]
pub enum LoadError {
    /// The file could not be opened as a workbook; the reason is attached.
    FileOpen(String),
    /// The workbook has no sheet.
    NoSheet,
    /// The first sheet could not be read into a grid.
    SheetRead,
    /// No cell of the grid stands for the given month and day.
    DateNotFound { month: u32, day: u32 },
}

/// The status line for a failed load.
pub open spec fn error_message(e: LoadError) -> Seq<char> {
    match e {
        LoadError::FileOpen(reason) => "❌ ファイルを開けません: "@ + reason@,
        LoadError::NoSheet => "❌ シートが見つかりません"@,
        LoadError::SheetRead => "❌ シートの読み込みに失敗しました"@,
        LoadError::DateNotFound { month, day } => "❌ 本日("@ + decimal(month as nat) + seq!['月']
            + decimal(day as nat) + "日)の日付列が見つかりません"@,
    }
}

/// The status line for a load that found the date cell at the zero-based
/// position (`row`, `col`): it reports the position counted from one.
pub open spec fn success_message(row: int, col: int) -> Seq<char> {
    "✅ エクセルを読み込みました (行:"@ + decimal((row + 1) as nat) + ", 列:"@ + decimal((col + 1) as nat)
        + seq![')']
}

/// The separator between the names of one shift.
pub open spec fn name_separator() -> Seq<char> {
    seq!['、']
}

/// The texts of `names` in order, with `sep` between neighbours.
pub open spec fn join(names: Seq<Seq<char>>, sep: Seq<char>) -> Seq<char>
    decreases names.len(),
{
    if names.len() == 0 {
        Seq::<char>::empty()
    } else if names.len() == 1 {
        names[0]
    } else {
        join(names.drop_last(), sep) + sep + names.last()
    }
}

/// What a slot shows after a load: the joined names when the load found any
/// for its shift, and what it showed before when it found none.
pub open spec fn slot_after(prior: Seq<char>, names: Seq<Seq<char>>) -> Seq<char> {
    if names.len() == 0 {
        prior
    } else {
        join(names, name_separator())
    }
}

/// The line that tells whether every shift is staffed, given the number of
/// slots that show nothing.
pub open spec fn placement_message(unfilled: nat) -> Seq<char> {
    if unfilled > 0 {
        "❌ シフトに不備があります（あと"@ + decimal(unfilled) + "名未配置）"@
    } else {
        "✅ 今日の配置はOKです！"@
    }
}

/// What the table shows for a slot: a dash for an empty slot, else its text.
pub open spec fn slot_display(text: Seq<char>) -> Seq<char> {
    if text.len() == 0 {
        seq!['―']
    } else {
        text
    }
}

/// A load never clears a slot for whose shift it found no name.
pub proof fn lemma_empty_shift_keeps_slot(prior: Seq<char>, names: Seq<Seq<char>>)
    requires
        names.len() == 0,
    ensures
        slot_after(prior, names) == prior,
{
}

/// The staff shown for each of the four shifts.
#[derive(Clone, Debug, PartialEq, Eq)]
pub struct ShiftSlots {
    pub early: String,
    pub day: String,
    pub late: String,
    pub night: String,
}

impl ShiftSlots {
    /// What the slot of `shift` shows.
    pub open spec fn shown(&self, shift: ShiftCategory) -> Seq<char> {
        match shift {
            ShiftCategory::Early => self.early@,
            ShiftCategory::Day => self.day@,
            ShiftCategory::Late => self.late@,
            ShiftCategory::Night => self.night@,
        }
    }

    /// The number of slots that show nothing.
    pub open spec fn unfilled(&self) -> nat {
        let one = |text: Seq<char>| if text.len() == 0 { 1nat } else { 0nat };
        one(self.early@) + one(self.day@) + one(self.late@) + one(self.night@)
    }

    /// Four empty slots.
    pub fn new() -> (slots: ShiftSlots)
        ensures
            forall|shift: ShiftCategory| #[trigger] slots.shown(shift).len() == 0,
    {
        ShiftSlots {
            early: String::new(),
            day: String::new(),
            late: String::new(),
            night: String::new(),
        }
    }

    /// The text in the slot of `shift`.
    pub fn get(&self, shift: ShiftCategory) -> (text: &String)
        ensures
            text@ == self.shown(shift),
    {
        match shift {
            ShiftCategory::Early => &self.early,
            ShiftCategory::Day => &self.day,
            ShiftCategory::Late => &self.late,
            ShiftCategory::Night => &self.night,
        }
    }

    /// Puts `text` in the slot of `shift` and leaves the other slots alone.
    pub fn set(&mut self, shift: ShiftCategory, text: String)
        ensures
            final(self).shown(shift) == text@,
            forall|other: ShiftCategory|
                other != shift ==> #[trigger] final(self).shown(other) == old(self).shown(other),
    {
        match shift {
            ShiftCategory::Early => {
                self.early = text;
            },
            ShiftCategory::Day => {
                self.day = text;
            },
            ShiftCategory::Late => {
                self.late = text;
            },
            ShiftCategory::Night => {
                self.night = text;
            },
        }
    }

    /// Counts the slots that show nothing.
    pub fn unfilled_count(&self) -> (n: usize)
        ensures
            n == self.unfilled(),
            n <= 4,
    {
        let mut n: usize = 0;
        if self.early.as_str().is_empty() {
            n += 1;
        }
        if self.day.as_str().is_empty() {
            n += 1;
        }
        if self.late.as_str().is_empty() {
            n += 1;
        }
        if self.night.as_str().is_empty() {
            n += 1;
        }
        n
    }

    /// The line that tells whether every shift is staffed.
    pub fn placement_text(&self) -> (out: String)
        ensures
            out@ == placement_message(self.unfilled()),
    {
        let n = self.unfilled_count();
        if n > 0 {
            let mut out = "❌ シフトに不備があります（あと".to_owned();
            push_chars(&mut out, &decimal_chars(n as u64));
            out.append("名未配置）");
            out
        } else {
            "✅ 今日の配置はOKです！".to_owned()
        }
    }

    /// What the table shows for the slot of `shift`.
    pub fn display(&self, shift: ShiftCategory) -> (out: String)
        ensures
            out@ == slot_display(self.shown(shift)),
    {
        let text = self.get(shift);
        if text.as_str().is_empty() {
            let mut out = String::new();
            out.push('―');
            assert(out@ =~= seq!['―']);
            out
        } else {
            text.clone()
        }
    }
}

/// Joins `names` with the name separator.
pub fn join_names(names: &Vec<String>) -> (out: String)
    ensures
        out@ == join(text_views(names@), name_separator()),
{
    let mut out = String::new();
    let mut i: usize = 0;
    let ghost all = text_views(names@);
    assert(all.take(0) =~= Seq::<Seq<char>>::empty());
    while i < names.len()
        invariant
            i <= names.len(),
            all == text_views(names@),
            out@ == join(all.take(i as int), name_separator()),
        decreases names.len() - i,
    {
        let ghost before = all.take(i as int);
        let ghost after = all.take(i + 1);
        assert(after.drop_last() =~= before);
        assert(after.last() == names@[i as int]@);
        if i > 0 {
            out.push('、');
        }
        let ghost with_sep = out@;
        out.append(names[i].as_str());
        proof {
            if i == 0 {
                assert(after.len() == 1);
                assert(out@ =~= after[0]);
            } else {
                assert(with_sep =~= join(before, name_separator()) + name_separator());
            }
        }
        i += 1;
    }
    assert(all.take(names.len() as int) =~= all);
    out
}

/// The status line for a failed load.
pub fn error_text(e: &LoadError) -> (out: String)
    ensures
        out@ == error_message(*e),
{
    match e {
        LoadError::FileOpen(reason) => {
            let mut out = "❌ ファイルを開けません: ".to_owned();
            out.append(reason.as_str());
            out
        },
        LoadError::NoSheet => "❌ シートが見つかりません".to_owned(),
        LoadError::SheetRead => "❌ シートの読み込みに失敗しました".to_owned(),
        LoadError::DateNotFound { month, day } => {
            let mut out = "❌ 本日(".to_owned();
            push_chars(&mut out, &decimal_chars(*month as u64));
            out.push('月');
            push_chars(&mut out, &decimal_chars(*day as u64));
            out.append("日)の日付列が見つかりません");
            assert(out@ =~= error_message(*e));
            out
        },
    }
}

/// The status line for a load that found the date cell at the zero-based
/// position (`row`, `col`).
pub fn success_text(row: usize, col: usize) -> (out: String)
    requires
        row < usize::MAX,
        col < usize::MAX,
    ensures
        out@ == success_message(row as int, col as int),
{
    let mut out = "✅ エクセルを読み込みました (行:".to_owned();
    push_chars(&mut out, &decimal_chars((row + 1) as u64));
    out.append(", 列:");
    push_chars(&mut out, &decimal_chars((col + 1) as u64));
    out.push(')');
    assert(out@ =~= success_message(row as int, col as int));
    out
}

/// What the window shows: the day's heading, the day itself, the staff of
/// the four shifts, the plan for the day, and the outcome of the last load.
#[derive(Clone, Debug, PartialEq, Eq)]
pub struct RosterState {
    pub date_display: String,
    pub today: Today,
    pub staff_names: ShiftSlots,
    pub schedule_text: String,
    pub status_message: String,
}

impl RosterState {
    /// Whether everything but the status line is as in `prior`.
    pub open spec fn roster_unchanged(&self, prior: RosterState) -> bool {
        &&& self.date_display@ == prior.date_display@
        &&& self.today == prior.today
        &&& self.schedule_text@ == prior.schedule_text@
        &&& forall|shift: ShiftCategory| #[trigger]
            self.staff_names.shown(shift) == prior.staff_names.shown(shift)
    }

    /// Whether the state is `prior` after a load that found the date cell of
    /// `g` at (`row`, `col`): each slot shows the names found for its shift,
    /// or what it showed before where none were found; the status line
    /// reports the position; the rest is as before.
    pub open spec fn loaded_from(
        &self,
        prior: RosterState,
        g: Seq<Seq<CellView>>,
        row: int,
        col: int,
    ) -> bool {
        &&& self.date_display@ == prior.date_display@
        &&& self.today == prior.today
        &&& self.schedule_text@ == prior.schedule_text@
        &&& self.status_message@ == success_message(row, col)
        &&& forall|shift: ShiftCategory| #[trigger]
            self.staff_names.shown(shift) == slot_after(
                prior.staff_names.shown(shift),
                shift_names(g, row, col, shift),
            )
    }

    /// The state at the start of a session on `day`: the day's heading, empty
    /// slots, no plan and no status.
    pub fn new(day: CalendarDay) -> (state: RosterState)
        ensures
            state.date_display@ == date_heading(day),
            state.today == (Today { month: day.month, day: day.day }),
            forall|shift: ShiftCategory| #[trigger] state.staff_names.shown(shift).len() == 0,
            state.schedule_text@.len() == 0,
            state.status_message@.len() == 0,
    {
        RosterState {
            date_display: day.heading(),
            today: day.today(),
            staff_names: ShiftSlots::new(),
            schedule_text: String::new(),
            status_message: String::new(),
        }
    }

    /// Shows the names of `roster`: a slot whose shift has names shows them
    /// joined, and a slot whose shift has none keeps what it showed.
    pub fn apply_roster(&mut self, roster: &Roster)
        ensures
            final(self).date_display@ == old(self).date_display@,
            final(self).today == old(self).today,
            final(self).schedule_text@ == old(self).schedule_text@,
            final(self).status_message@ == old(self).status_message@,
            forall|shift: ShiftCategory| #[trigger]
                final(self).staff_names.shown(shift) == slot_after(
                    old(self).staff_names.shown(shift),
                    roster.names(shift),
                ),
            forall|shift: ShiftCategory|
                roster.names(shift).len() == 0 ==> #[trigger] final(self).staff_names.shown(shift)
                    == old(self).staff_names.shown(shift),
    {
        if roster.early.len() > 0 {
            self.staff_names.early = join_names(&roster.early);
        }
        if roster.day.len() > 0 {
            self.staff_names.day = join_names(&roster.day);
        }
        if roster.late.len() > 0 {
            self.staff_names.late = join_names(&roster.late);
        }
        if roster.night.len() > 0 {
            self.staff_names.night = join_names(&roster.night);
        }
    }

    /// Loads a grid: finds today's date cell, reads the roster beneath it and
    /// shows it. Returns the position of the date cell, or the error when no
    /// cell stands for today; then every slot keeps what it showed. The
    /// status line reports the outcome either way.
    pub fn load_grid(&mut self, grid: &Grid) -> (r: Result<(usize, usize), LoadError>)
        ensures
            match r {
                Ok((row, col)) => {
                    &&& is_first_match(grid@, old(self).today, row as int, col as int)
                    &&& final(self).loaded_from(*old(self), grid@, row as int, col as int)
                },
                Err(e) => {
                    &&& no_match(grid@, old(self).today)
                    &&& e == (LoadError::DateNotFound {
                        month: old(self).today.month,
                        day: old(self).today.day,
                    })
                    &&& final(self).roster_unchanged(*old(self))
                    &&& final(self).status_message@ == error_message(e)
                },
            },
    {
        match locate_date(grid, self.today) {
            Some((row, col)) => {
                let roster = extract_roster(grid, row, col);
                self.apply_roster(&roster);
                let rows = grid.rows.len();
                let cols = grid.rows[row].len();
                assert(row < rows && col < cols) by {
                    assert(grid@[row as int].len() == grid.rows@[row as int]@.len());
                }
                self.status_message = success_text(row, col);
                Ok((row, col))
            },
            None => {
                let e = LoadError::DateNotFound { month: self.today.month, day: self.today.day };
                self.status_message = error_text(&e);
                Err(e)
            },
        }
    }

    /// Takes in the outcome of reading a workbook: a grid is loaded as by
    /// `load_grid`; a failure leaves the roster as it was and puts its
    /// message in the status line.
    pub fn load_outcome(&mut self, outcome: Result<Grid, LoadError>) -> (r: Result<
        (usize, usize),
        LoadError,
    >)
        ensures
            match outcome {
                Ok(grid) => match r {
                    Ok((row, col)) => {
                        &&& is_first_match(grid@, old(self).today, row as int, col as int)
                        &&& final(self).loaded_from(*old(self), grid@, row as int, col as int)
                    },
                    Err(e) => {
                        &&& no_match(grid@, old(self).today)
                        &&& e == (LoadError::DateNotFound {
                            month: old(self).today.month,
                            day: old(self).today.day,
                        })
                        &&& final(self).roster_unchanged(*old(self))
                        &&& final(self).status_message@ == error_message(e)
                    },
                },
                Err(failure) => {
                    &&& r == Err::<(usize, usize), LoadError>(failure)
                    &&& final(self).roster_unchanged(*old(self))
                    &&& final(self).status_message@ == error_message(failure)
                },
            },
    {
        match outcome {
            Ok(grid) => self.load_grid(&grid),
            Err(failure) => {
                self.status_message = error_text(&failure);
                Err(failure)
            },
        }
    }
}

} // verus!
