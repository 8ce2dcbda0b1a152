//! Daily staff-shift roster: finds today's date in a monthly schedule grid and
//! reads the staff assigned to each shift from the rows beneath it.

pub mod calendar;
pub mod cell;
pub mod chars;
pub mod extractor;
pub mod locator;
pub mod number;
pub mod state;
pub mod text;
pub mod width;

pub use calendar::{CalendarDay, Weekday};
pub use cell::{CellValue, Grid};
pub use extractor::{extract_roster, Roster, ShiftCategory};
pub use locator::{locate_date, match_rule, MatchRule, Today};
pub use state::{LoadError, RosterState, ShiftSlots};
pub use width::to_hankaku;
