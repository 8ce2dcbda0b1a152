use manning::{locate_date, match_rule, CellValue, Grid, MatchRule, Today};

fn text(s: &str) -> CellValue {
    CellValue::Text(s.to_string())
}

fn date(month: u32, day: u32, shown: &str) -> CellValue {
    CellValue::Date { month, day, text: shown.to_string() }
}

fn march_14() -> Today {
    Today { month: 3, day: 14 }
}

fn blank_grid(rows: usize, cols: usize) -> Vec<Vec<CellValue>> {
    vec![vec![CellValue::Empty; cols]; rows]
}

#[test]
fn locator_returns_the_first_match_in_reading_order() {
    let mut rows = blank_grid(7, 5);
    rows[2][3] = text("3/14");
    rows[5][1] = text("3/14");
    assert_eq!(locate_date(&Grid::new(rows), march_14()), Some((2, 3)));
}

#[test]
fn locator_prefers_the_left_cell_within_a_row() {
    let mut rows = blank_grid(3, 6);
    rows[1][4] = CellValue::Number(14);
    rows[1][2] = text("3月14日");
    assert_eq!(locate_date(&Grid::new(rows), march_14()), Some((1, 2)));
}

#[test]
fn locator_prefers_the_upper_row_over_the_left_column() {
    let mut rows = blank_grid(4, 4);
    rows[3][0] = CellValue::Number(14);
    rows[1][3] = CellValue::Number(14);
    assert_eq!(locate_date(&Grid::new(rows), march_14()), Some((1, 3)));
}

#[test]
fn locator_matches_a_plain_integer_day_cell() {
    let grid = Grid::new(vec![vec![text("Sato"), CellValue::Number(14)]]);
    for month in 1..=12 {
        assert_eq!(locate_date(&grid, Today { month, day: 14 }), Some((0, 1)));
    }
}

#[test]
fn locator_takes_the_integer_cell_before_a_later_text_day() {
    let grid = Grid::new(vec![
        vec![text("Sato"), CellValue::Number(14)],
        vec![text("Kato"), text("15日")],
        vec![text("Ito"), text("14")],
    ]);
    assert_eq!(locate_date(&grid, Today { month: 7, day: 14 }), Some((0, 1)));
}

#[test]
fn locator_matches_slash_delimited_month_and_day() {
    let grid = Grid::new(vec![vec![text("x"), text("3/14")]]);
    assert_eq!(locate_date(&grid, march_14()), Some((0, 1)));
    assert_eq!(match_rule(&text("3/14"), march_14()), Some(MatchRule::SlashDate));
}

#[test]
fn locator_matches_slash_delimited_date_with_year() {
    let grid = Grid::new(vec![vec![text("x")], vec![text("2024/3/14")]]);
    assert_eq!(locate_date(&grid, march_14()), Some((1, 0)));
    assert_eq!(match_rule(&text("2024/3/14"), march_14()), Some(MatchRule::SlashDate));
}

#[test]
fn locator_finds_nothing_in_an_empty_grid() {
    assert_eq!(locate_date(&Grid::new(Vec::new()), march_14()), None);
    assert_eq!(locate_date(&Grid::new(vec![Vec::new(), Vec::new()]), march_14()), None);
}

#[test]
fn locator_finds_nothing_when_no_cell_qualifies() {
    let grid = Grid::new(vec![
        vec![text("Name"), text("3/15"), CellValue::Number(15)],
        vec![text("Sato"), date(3, 13, "45364"), CellValue::Empty],
        vec![text("4月14日ではない"), text("abc/def")],
    ]);
    assert_eq!(locate_date(&grid, march_14()), None);
}

#[test]
fn locator_reads_rows_of_different_lengths() {
    let grid = Grid::new(vec![
        vec![],
        vec![text("a")],
        vec![text("b"), text("c"), text("d"), text("3月14日")],
        vec![text("14")],
    ]);
    assert_eq!(locate_date(&grid, march_14()), Some((2, 3)));
}

#[test]
fn typed_date_matches_on_month_and_day() {
    assert_eq!(match_rule(&date(3, 14, "45365"), march_14()), Some(MatchRule::TypedDate));
    assert_eq!(match_rule(&date(3, 14, ""), march_14()), Some(MatchRule::TypedDate));
    assert_eq!(match_rule(&date(4, 14, "45396"), march_14()), None);
    assert_eq!(match_rule(&date(3, 15, "45366"), march_14()), None);
}

#[test]
fn typed_date_of_another_day_still_goes_through_the_text_rules() {
    assert_eq!(match_rule(&date(1, 14, "14"), march_14()), Some(MatchRule::NumericText));
    assert_eq!(match_rule(&date(1, 1, "3/14"), march_14()), Some(MatchRule::SlashDate));
}

#[test]
fn integer_matches_the_day_whatever_the_month() {
    assert_eq!(match_rule(&CellValue::Number(14), march_14()), Some(MatchRule::Integer));
    assert_eq!(
        match_rule(&CellValue::Number(14), Today { month: 11, day: 14 }),
        Some(MatchRule::Integer)
    );
    assert_eq!(match_rule(&CellValue::Number(3), march_14()), None);
    assert_eq!(match_rule(&CellValue::Number(-14), march_14()), None);
    assert_eq!(match_rule(&CellValue::Number(314), march_14()), None);
}

#[test]
fn integer_beyond_32_bits_is_not_taken_for_a_small_day() {
    assert_eq!(match_rule(&CellValue::Number(4_294_967_296 + 14), march_14()), None);
}

#[test]
fn numeric_text_matches_after_normalizing_and_trimming() {
    assert_eq!(match_rule(&text("14"), march_14()), Some(MatchRule::NumericText));
    assert_eq!(match_rule(&text("１４"), march_14()), Some(MatchRule::NumericText));
    assert_eq!(match_rule(&text("　１４　"), march_14()), Some(MatchRule::NumericText));
    assert_eq!(match_rule(&text(" +14\n"), march_14()), Some(MatchRule::NumericText));
    assert_eq!(match_rule(&text("014"), march_14()), Some(MatchRule::NumericText));
    assert_eq!(match_rule(&text("15"), march_14()), None);
    assert_eq!(match_rule(&text("1 4"), march_14()), None);
    assert_eq!(match_rule(&text("14日"), march_14()), None);
}

#[test]
fn slash_date_trims_its_fields() {
    assert_eq!(match_rule(&text(" 3 / 14 "), march_14()), Some(MatchRule::SlashDate));
    assert_eq!(match_rule(&text("３／１４"), march_14()), None);
    assert_eq!(match_rule(&text("３/１４"), march_14()), Some(MatchRule::SlashDate));
    assert_eq!(match_rule(&text("03/14"), march_14()), Some(MatchRule::SlashDate));
}

#[test]
fn slash_date_with_more_fields_reads_the_second_and_third() {
    assert_eq!(match_rule(&text("2024/3/14/x"), march_14()), Some(MatchRule::SlashDate));
    assert_eq!(match_rule(&text("x/3/14"), march_14()), Some(MatchRule::SlashDate));
    assert_eq!(match_rule(&text("3/14/2024"), Today { month: 14, day: 2024 }), Some(MatchRule::SlashDate));
    assert_eq!(match_rule(&text("2024/03/15"), march_14()), None);
}

#[test]
fn slash_date_of_two_fields_does_not_read_month_first_as_day() {
    assert_eq!(match_rule(&text("14/3"), march_14()), None);
    assert_eq!(match_rule(&text("14/3"), Today { month: 14, day: 3 }), Some(MatchRule::SlashDate));
}

#[test]
fn date_phrase_matches_as_a_substring() {
    assert_eq!(match_rule(&text("3/14 早番"), march_14()), Some(MatchRule::DatePhrase));
    assert_eq!(match_rule(&text("本日: 3月14日(木)"), march_14()), Some(MatchRule::DatePhrase));
    assert_eq!(match_rule(&text("３月１４日"), march_14()), Some(MatchRule::DatePhrase));
    assert_eq!(match_rule(&text("13/14日"), march_14()), Some(MatchRule::DatePhrase));
    assert_eq!(match_rule(&text("3月15日"), march_14()), None);
    assert_eq!(match_rule(&text("3 月 14 日"), march_14()), None);
}

#[test]
fn rules_are_tried_in_their_fixed_order() {
    // A date cell whose text would also match by the later rules.
    assert_eq!(match_rule(&date(3, 14, "3/14"), march_14()), Some(MatchRule::TypedDate));
    // A number is reported as an integer, not as numeric text.
    assert_eq!(match_rule(&CellValue::Number(14), march_14()), Some(MatchRule::Integer));
    // Text that is both a slash date and holds the phrase.
    assert_eq!(match_rule(&text("3/14"), march_14()), Some(MatchRule::SlashDate));
}

#[test]
fn empty_cells_never_match() {
    assert_eq!(match_rule(&CellValue::Empty, march_14()), None);
    assert_eq!(match_rule(&text(""), march_14()), None);
    assert_eq!(match_rule(&CellValue::Empty, Today { month: 0, day: 0 }), None);
}
