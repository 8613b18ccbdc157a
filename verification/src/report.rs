//! The report sheet of one request: its filename, the static header cells
//! and the assembly of the two game areas into one cell layout.

use vstd::prelude::*;
use vstd::string::StringExecFns;

use crate::cells::BorderEdge;
use crate::cells::BorderModel;
use crate::cells::BorderStroke;
use crate::cells::BorderWeight;
use crate::cells::Cell;
use crate::cells::CellContent;
use crate::cells::CellModel;
use crate::cells::CellValue;
use crate::cells::MergeModel;
use crate::cells::MergeRange;
use crate::cells::SheetLayout;
use crate::cells::StyleKind;
use crate::data::Data;
use crate::data::spec_short_name;
use crate::grid::GameGrid;
use crate::grid::LayoutError;
use crate::grid::layout_game;
use crate::grid::spec_game_borders;
use crate::grid::spec_game_cells;
use crate::grid::spec_has_dash;
use crate::grid::spec_result_black;
use crate::grid::spec_result_white;
use crate::pgn::GameRecord;
use crate::utils::calc_row_count;
use crate::utils::spec_row_count;

verus! {

/// The calendar date stamped into the report: the event date line and the
/// filename.
#[derive(Clone, Copy, Debug, PartialEq, Eq, Structural)]
pub struct ReportDate {
    pub year: u32,
    pub month: u32,
    pub day: u32,
}

/// A date the report can print: a four-digit year and a real month and
/// day-of-month number.
pub open spec fn spec_valid_date(d: ReportDate) -> bool {
    &&& 1000 <= d.year <= 9999
    &&& 1 <= d.month <= 12
    &&& 1 <= d.day <= 31
}

/// The decimal digit character of a value below ten.
pub open spec fn spec_digit_char(d: int) -> char {
    if d == 0 {
        '0'
    } else if d == 1 {
        '1'
    } else if d == 2 {
        '2'
    } else if d == 3 {
        '3'
    } else if d == 4 {
        '4'
    } else if d == 5 {
        '5'
    } else if d == 6 {
        '6'
    } else if d == 7 {
        '7'
    } else if d == 8 {
        '8'
    } else {
        '9'
    }
}

/// A value below one hundred, printed as exactly two digits.
pub open spec fn spec_two_digits(n: int) -> Seq<char> {
    seq![spec_digit_char(n / 10), spec_digit_char(n % 10)]
}

/// A value below ten thousand, printed as exactly four digits.
pub open spec fn spec_four_digits(n: int) -> Seq<char> {
    seq![
        spec_digit_char(n / 1000),
        spec_digit_char((n / 100) % 10),
        spec_digit_char((n / 10) % 10),
        spec_digit_char(n % 10),
    ]
}

/// A date in the year-month-day form of the filename.
pub open spec fn spec_date_iso(d: ReportDate) -> Seq<char> {
    spec_four_digits(d.year as int) + "-"@ + spec_two_digits(d.month as int) + "-"@
        + spec_two_digits(d.day as int)
}

/// A date in the day-month-year form of the event line.
pub open spec fn spec_date_dmy(d: ReportDate) -> Seq<char> {
    spec_two_digits(d.day as int) + "."@ + spec_two_digits(d.month as int) + "."@
        + spec_four_digits(d.year as int)
}

/// Appends one decimal digit.
fn append_digit(out: &mut String, d: u32)
    requires
        d <= 9,
    ensures
        final(out)@ == old(out)@ + seq![spec_digit_char(d as int)],
{
    let s: &str = if d == 0 {
        "0"
    } else if d == 1 {
        "1"
    } else if d == 2 {
        "2"
    } else if d == 3 {
        "3"
    } else if d == 4 {
        "4"
    } else if d == 5 {
        "5"
    } else if d == 6 {
        "6"
    } else if d == 7 {
        "7"
    } else if d == 8 {
        "8"
    } else {
        "9"
    };
    proof {
        reveal_strlit("0");
        reveal_strlit("1");
        reveal_strlit("2");
        reveal_strlit("3");
        reveal_strlit("4");
        reveal_strlit("5");
        reveal_strlit("6");
        reveal_strlit("7");
        reveal_strlit("8");
        reveal_strlit("9");
        assert(s@ =~= seq![spec_digit_char(d as int)]);
    }
    out.append(s);
}

/// Appends a value below one hundred as exactly two digits.
fn append_two_digits(out: &mut String, n: u32)
    requires
        n <= 99,
    ensures
        final(out)@ == old(out)@ + spec_two_digits(n as int),
{
    append_digit(out, n / 10);
    append_digit(out, n % 10);
    proof {
        assert(final(out)@ =~= old(out)@ + spec_two_digits(n as int));
    }
}

/// Appends a value below ten thousand as exactly four digits.
fn append_four_digits(out: &mut String, n: u32)
    requires
        n <= 9999,
    ensures
        final(out)@ == old(out)@ + spec_four_digits(n as int),
{
    append_digit(out, n / 1000);
    append_digit(out, (n / 100) % 10);
    append_digit(out, (n / 10) % 10);
    append_digit(out, n % 10);
    proof {
        assert(final(out)@ =~= old(out)@ + spec_four_digits(n as int));
    }
}

/// Prints a date in the year-month-day form of the filename.
pub fn format_date_iso(date: &ReportDate) -> (r: String)
    requires
        spec_valid_date(*date),
    ensures
        r@ == spec_date_iso(*date),
{
    let mut out = String::new();
    append_four_digits(&mut out, date.year);
    out.append("-");
    append_two_digits(&mut out, date.month);
    out.append("-");
    append_two_digits(&mut out, date.day);
    proof {
        assert(out@ =~= spec_date_iso(*date));
    }
    out
}

/// Prints a date in the day-month-year form of the event line.
pub fn format_date_dmy(date: &ReportDate) -> (r: String)
    requires
        spec_valid_date(*date),
    ensures
        r@ == spec_date_dmy(*date),
{
    let mut out = String::new();
    append_two_digits(&mut out, date.day);
    out.append(".");
    append_two_digits(&mut out, date.month);
    out.append(".");
    append_four_digits(&mut out, date.year);
    proof {
        assert(out@ =~= spec_date_dmy(*date));
    }
    out
}

/// The title line over the whole sheet.
pub open spec fn spec_report_title() -> Seq<char> {
    "Отчет о результатах самостоятельной работы обучающегося по дисциплинам \"Физическая культура\" или \"Элективные курсы по физической культуре и спорту\""@
}

/// The event line under each game header: the tournament name and the
/// report's date.
pub open spec fn spec_event_info(tournament: Seq<char>, date: ReportDate) -> Seq<char> {
    tournament + " "@ + spec_date_dmy(date)
}

/// The one title cell, merged over the sheet's width.
pub open spec fn spec_title_cells() -> Seq<CellModel> {
    seq![
        CellModel {
            col: 2,
            row: 1,
            value: CellContent::Text(spec_report_title()),
            style: StyleKind::Title,
        },
    ]
}

pub open spec fn spec_title_merges() -> Seq<MergeModel> {
    seq![MergeModel { start_col: 2, start_row: 1, end_col: 13, end_row: 1 }]
}

/// The student info table: labels and values over rows three and four.
pub open spec fn spec_info_cells(data: Data) -> Seq<CellModel> {
    seq![
        CellModel {
            col: 2,
            row: 3,
            value: CellContent::Text("Студ. билет"@),
            style: StyleKind::InfoTable,
        },
        CellModel {
            col: 2,
            row: 4,
            value: CellContent::Text(data.student.id@),
            style: StyleKind::InfoTable,
        },
        CellModel { col: 3, row: 3, value: CellContent::Text("ФИО"@), style: StyleKind::InfoTable },
        CellModel {
            col: 3,
            row: 4,
            value: CellContent::Text(data.student.name@),
            style: StyleKind::InfoTable,
        },
        CellModel {
            col: 7,
            row: 3,
            value: CellContent::Text("Группа"@),
            style: StyleKind::InfoTable,
        },
        CellModel {
            col: 7,
            row: 4,
            value: CellContent::Text(data.student.group@),
            style: StyleKind::InfoTable,
        },
        CellModel {
            col: 8,
            row: 3,
            value: CellContent::Text("Спортивное отделение"@),
            style: StyleKind::InfoTable,
        },
        CellModel {
            col: 8,
            row: 4,
            value: CellContent::Text("Шахматы"@),
            style: StyleKind::InfoTable,
        },
        CellModel {
            col: 11,
            row: 3,
            value: CellContent::Text("Преподаватель"@),
            style: StyleKind::InfoTable,
        },
        CellModel {
            col: 11,
            row: 4,
            value: CellContent::Text(data.subject.teacher@),
            style: StyleKind::InfoTable,
        },
    ]
}

pub open spec fn spec_info_merges() -> Seq<MergeModel> {
    seq![
        MergeModel { start_col: 3, start_row: 3, end_col: 6, end_row: 3 },
        MergeModel { start_col: 3, start_row: 4, end_col: 6, end_row: 4 },
        MergeModel { start_col: 8, start_row: 3, end_col: 10, end_row: 3 },
        MergeModel { start_col: 8, start_row: 4, end_col: 10, end_row: 4 },
        MergeModel { start_col: 11, start_row: 3, end_col: 13, end_row: 3 },
        MergeModel { start_col: 11, start_row: 4, end_col: 13, end_row: 4 },
    ]
}

/// The merged last column of the info table loses its box border; these
/// strokes draw its right edge back.
pub open spec fn spec_info_borders() -> Seq<BorderModel> {
    seq![
        BorderModel { col: 13, row: 3, edge: BorderEdge::Right, weight: BorderWeight::Medium },
        BorderModel { col: 13, row: 4, edge: BorderEdge::Right, weight: BorderWeight::Medium },
    ]
}

/// The two game headers: game number, event line, colour labels and the
/// two player names, mirrored between the games.
pub open spec fn spec_game_info_cells(data: Data, date: ReportDate) -> Seq<CellModel> {
    let event = spec_event_info(data.subject.tournament@, date);
    let short = spec_short_name(data.student.name@);
    seq![
        CellModel {
            col: 2,
            row: 7,
            value: CellContent::Text("Шахматная партия №1"@),
            style: StyleKind::Header,
        },
        CellModel { col: 2, row: 8, value: CellContent::Text(event), style: StyleKind::Header },
        CellModel {
            col: 2,
            row: 9,
            value: CellContent::Text("Белые"@),
            style: StyleKind::GameInfoTable,
        },
        CellModel {
            col: 2,
            row: 10,
            value: CellContent::Text("Черные"@),
            style: StyleKind::GameInfoTable,
        },
        CellModel { col: 3, row: 9, value: CellContent::Text(short), style: StyleKind::StudentName },
        CellModel {
            col: 3,
            row: 10,
            value: CellContent::Text(data.game.opponent@),
            style: StyleKind::StudentName,
        },
        CellModel {
            col: 8,
            row: 7,
            value: CellContent::Text("Шахматная партия №2"@),
            style: StyleKind::Header,
        },
        CellModel { col: 8, row: 8, value: CellContent::Text(event), style: StyleKind::Header },
        CellModel {
            col: 8,
            row: 9,
            value: CellContent::Text("Белые"@),
            style: StyleKind::GameInfoTable,
        },
        CellModel {
            col: 8,
            row: 10,
            value: CellContent::Text("Черные"@),
            style: StyleKind::GameInfoTable,
        },
        CellModel {
            col: 9,
            row: 9,
            value: CellContent::Text(data.game.opponent@),
            style: StyleKind::StudentName,
        },
        CellModel { col: 9, row: 10, value: CellContent::Text(short), style: StyleKind::StudentName },
    ]
}

pub open spec fn spec_game_info_merges() -> Seq<MergeModel> {
    seq![
        MergeModel { start_col: 2, start_row: 7, end_col: 7, end_row: 7 },
        MergeModel { start_col: 2, start_row: 8, end_col: 7, end_row: 8 },
        MergeModel { start_col: 3, start_row: 9, end_col: 7, end_row: 9 },
        MergeModel { start_col: 3, start_row: 10, end_col: 7, end_row: 10 },
        MergeModel { start_col: 8, start_row: 7, end_col: 13, end_row: 7 },
        MergeModel { start_col: 8, start_row: 8, end_col: 13, end_row: 8 },
        MergeModel { start_col: 9, start_row: 9, end_col: 13, end_row: 9 },
        MergeModel { start_col: 9, start_row: 10, end_col: 13, end_row: 10 },
    ]
}

/// The merged last column of the game info table gets its thin right edge
/// drawn back.
pub open spec fn spec_game_info_borders() -> Seq<BorderModel> {
    seq![
        BorderModel { col: 13, row: 9, edge: BorderEdge::Right, weight: BorderWeight::Thin },
        BorderModel { col: 13, row: 10, edge: BorderEdge::Right, weight: BorderWeight::Thin },
    ]
}

/// All static cells of the sheet before the two game areas.
pub open spec fn spec_static_cells(data: Data, date: ReportDate) -> Seq<CellModel> {
    spec_title_cells() + spec_info_cells(data) + spec_game_info_cells(data, date)
}

/// All merge ranges of the sheet.
pub open spec fn spec_report_merges() -> Seq<MergeModel> {
    spec_title_merges() + spec_info_merges() + spec_game_info_merges()
}

/// All border strokes of the static part of the sheet.
pub open spec fn spec_static_borders() -> Seq<BorderModel> {
    spec_info_borders() + spec_game_info_borders()
}

/// The filename of a report.
pub open spec fn spec_filename(id: Seq<char>, date: ReportDate) -> Seq<char> {
    "Otchet_TK_FViS_"@ + id + "_"@ + spec_date_iso(date) + ".xlsx"@
}

/// One report under construction: the request data and the date the report
/// is generated on.
pub struct Report {
    pub data: Data,
    pub generation_date: ReportDate,
}

impl Report {
    /// A report over the given request, stamped with the given date.
    pub fn new(data: Data, generation_date: ReportDate) -> (r: Report)
        ensures
            r.data == data,
            r.generation_date == generation_date,
    {
        Report { data, generation_date }
    }

    /// The download filename: a fixed report prefix, the student id and the
    /// generation date.
    pub fn filename(&self) -> (r: String)
        requires
            spec_valid_date(self.generation_date),
        ensures
            r@ == spec_filename(self.data.student.id@, self.generation_date),
    {
        let mut out = String::from_str("Otchet_TK_FViS_");
        out.append(self.data.student.id.as_str());
        out.append("_");
        let date = format_date_iso(&self.generation_date);
        out.append(date.as_str());
        out.append(".xlsx");
        proof {
            assert(out@ =~= spec_filename(self.data.student.id@, self.generation_date));
        }
        out
    }

    /// Computes every cell, merge range and border stroke of the report
    /// sheet for the two fetched games. Fails exactly when a record's
    /// result string cannot be split into two scores.
    pub fn generate_spreadsheet(&self, white: &GameRecord, black: &GameRecord) -> (r: Result<
        SheetLayout,
        LayoutError,
    >)
        requires
            spec_valid_date(self.generation_date),
            white@.moves.len() <= 1_000_000_000,
            black@.moves.len() <= 1_000_000_000,
        ensures
            match r {
                Ok(l) => {
                    let t = spec_row_count(white@.moves.len(), black@.moves.len()) as int;
                    &&& spec_has_dash(white@.result)
                    &&& spec_has_dash(black@.result)
                    &&& l.cells.deep_view() == spec_static_cells(self.data, self.generation_date)
                        + spec_game_cells(
                        white@.moves,
                        spec_result_white(white@.result),
                        spec_result_black(white@.result),
                        t,
                        0,
                    ) + spec_game_cells(
                        black@.moves,
                        spec_result_white(black@.result),
                        spec_result_black(black@.result),
                        t,
                        1,
                    )
                    &&& l.merges.deep_view() == spec_report_merges()
                    &&& l.borders.deep_view() == spec_static_borders() + spec_game_borders(t, 0)
                        + spec_game_borders(t, 1)
                },
                Err(e) => e == LayoutError::MalformedResult && !(spec_has_dash(white@.result)
                    && spec_has_dash(black@.result)),
            },
    {
        assemble_sheet(&self.data, &self.generation_date, white, black)
    }
}

/// Writes the title cell and its merge range.
fn write_title(cells: &mut Vec<Cell>, merges: &mut Vec<MergeRange>)
    ensures
        final(cells).deep_view() == old(cells).deep_view() + spec_title_cells(),
        final(merges).deep_view() == old(merges).deep_view() + spec_title_merges(),
{
    merges.push(MergeRange { start_col: 2, start_row: 1, end_col: 13, end_row: 1 });
    cells.push(
        Cell {
            col: 2,
            row: 1,
            value: CellValue::Text(
                String::from_str(
                    "Отчет о результатах самостоятельной работы обучающегося по дисциплинам \"Физическая культура\" или \"Элективные курсы по физической культуре и спорту\"",
                ),
            ),
            style: StyleKind::Title,
        },
    );
    proof {
        assert(cells.deep_view() =~= old(cells).deep_view() + spec_title_cells());
        assert(merges.deep_view() =~= old(merges).deep_view() + spec_title_merges());
    }
}

/// Writes the student info table: labels, values, merge ranges and the
/// right-edge strokes of its merged last column.
fn write_info(
    data: &Data,
    cells: &mut Vec<Cell>,
    merges: &mut Vec<MergeRange>,
    borders: &mut Vec<BorderStroke>,
)
    ensures
        final(cells).deep_view() == old(cells).deep_view() + spec_info_cells(*data),
        final(merges).deep_view() == old(merges).deep_view() + spec_info_merges(),
        final(borders).deep_view() == old(borders).deep_view() + spec_info_borders(),
{
    cells.push(
        Cell {
            col: 2,
            row: 3,
            value: CellValue::Text(String::from_str("Студ. билет")),
            style: StyleKind::InfoTable,
        },
    );
    cells.push(
        Cell {
            col: 2,
            row: 4,
            value: CellValue::Text(data.student.id.clone()),
            style: StyleKind::InfoTable,
        },
    );
    merges.push(MergeRange { start_col: 3, start_row: 3, end_col: 6, end_row: 3 });
    merges.push(MergeRange { start_col: 3, start_row: 4, end_col: 6, end_row: 4 });
    cells.push(
        Cell {
            col: 3,
            row: 3,
            value: CellValue::Text(String::from_str("ФИО")),
            style: StyleKind::InfoTable,
        },
    );
    cells.push(
        Cell {
            col: 3,
            row: 4,
            value: CellValue::Text(data.student.name.clone()),
            style: StyleKind::InfoTable,
        },
    );
    cells.push(
        Cell {
            col: 7,
            row: 3,
            value: CellValue::Text(String::from_str("Группа")),
            style: StyleKind::InfoTable,
        },
    );
    cells.push(
        Cell {
            col: 7,
            row: 4,
            value: CellValue::Text(data.student.group.clone()),
            style: StyleKind::InfoTable,
        },
    );
    merges.push(MergeRange { start_col: 8, start_row: 3, end_col: 10, end_row: 3 });
    merges.push(MergeRange { start_col: 8, start_row: 4, end_col: 10, end_row: 4 });
    cells.push(
        Cell {
            col: 8,
            row: 3,
            value: CellValue::Text(String::from_str("Спортивное отделение")),
            style: StyleKind::InfoTable,
        },
    );
    cells.push(
        Cell {
            col: 8,
            row: 4,
            value: CellValue::Text(String::from_str("Шахматы")),
            style: StyleKind::InfoTable,
        },
    );
    merges.push(MergeRange { start_col: 11, start_row: 3, end_col: 13, end_row: 3 });
    merges.push(MergeRange { start_col: 11, start_row: 4, end_col: 13, end_row: 4 });
    cells.push(
        Cell {
            col: 11,
            row: 3,
            value: CellValue::Text(String::from_str("Преподаватель")),
            style: StyleKind::InfoTable,
        },
    );
    cells.push(
        Cell {
            col: 11,
            row: 4,
            value: CellValue::Text(data.subject.teacher.clone()),
            style: StyleKind::InfoTable,
        },
    );
    borders.push(
        BorderStroke { col: 13, row: 3, edge: BorderEdge::Right, weight: BorderWeight::Medium },
    );
    borders.push(
        BorderStroke { col: 13, row: 4, edge: BorderEdge::Right, weight: BorderWeight::Medium },
    );
    proof {
        assert(cells.deep_view() =~= old(cells).deep_view() + spec_info_cells(*data));
        assert(merges.deep_view() =~= old(merges).deep_view() + spec_info_merges());
        assert(borders.deep_view() =~= old(borders).deep_view() + spec_info_borders());
    }
}

/// Writes the two game headers: game numbers, event lines, colour
/// labels, player names, merge ranges and right-edge strokes.
fn write_game_info(
    data: &Data,
    generation_date: &ReportDate,
    cells: &mut Vec<Cell>,
    merges: &mut Vec<MergeRange>,
    borders: &mut Vec<BorderStroke>,
)
    requires
        spec_valid_date(*generation_date),
    ensures
        final(cells).deep_view() == old(cells).deep_view() + spec_game_info_cells(
            *data,
            *generation_date,
        ),
        final(merges).deep_view() == old(merges).deep_view() + spec_game_info_merges(),
        final(borders).deep_view() == old(borders).deep_view() + spec_game_info_borders(),
{
    let mut event = data.subject.tournament.clone();
    event.append(" ");
    let dmy = format_date_dmy(generation_date);
    event.append(dmy.as_str());
    proof {
        assert(event@ =~= spec_event_info(data.subject.tournament@, *generation_date));
    }
    let short = data.student.short_name();

    merges.push(MergeRange { start_col: 2, start_row: 7, end_col: 7, end_row: 7 });
    merges.push(MergeRange { start_col: 2, start_row: 8, end_col: 7, end_row: 8 });
    cells.push(
        Cell {
            col: 2,
            row: 7,
            value: CellValue::Text(String::from_str("Шахматная партия №1")),
            style: StyleKind::Header,
        },
    );
    cells.push(
        Cell { col: 2, row: 8, value: CellValue::Text(event.clone()), style: StyleKind::Header },
    );
    cells.push(
        Cell {
            col: 2,
            row: 9,
            value: CellValue::Text(String::from_str("Белые")),
            style: StyleKind::GameInfoTable,
        },
    );
    cells.push(
        Cell {
            col: 2,
            row: 10,
            value: CellValue::Text(String::from_str("Черные")),
            style: StyleKind::GameInfoTable,
        },
    );
    merges.push(MergeRange { start_col: 3, start_row: 9, end_col: 7, end_row: 9 });
    merges.push(MergeRange { start_col: 3, start_row: 10, end_col: 7, end_row: 10 });
    cells.push(
        Cell {
            col: 3,
            row: 9,
            value: CellValue::Text(short.clone()),
            style: StyleKind::StudentName,
        },
    );
    cells.push(
        Cell {
            col: 3,
            row: 10,
            value: CellValue::Text(data.game.opponent.clone()),
            style: StyleKind::StudentName,
        },
    );
    merges.push(MergeRange { start_col: 8, start_row: 7, end_col: 13, end_row: 7 });
    merges.push(MergeRange { start_col: 8, start_row: 8, end_col: 13, end_row: 8 });
    cells.push(
        Cell {
            col: 8,
            row: 7,
            value: CellValue::Text(String::from_str("Шахматная партия №2")),
            style: StyleKind::Header,
        },
    );
    cells.push(
        Cell { col: 8, row: 8, value: CellValue::Text(event), style: StyleKind::Header },
    );
    cells.push(
        Cell {
            col: 8,
            row: 9,
            value: CellValue::Text(String::from_str("Белые")),
            style: StyleKind::GameInfoTable,
        },
    );
    cells.push(
        Cell {
            col: 8,
            row: 10,
            value: CellValue::Text(String::from_str("Черные")),
            style: StyleKind::GameInfoTable,
        },
    );
    merges.push(MergeRange { start_col: 9, start_row: 9, end_col: 13, end_row: 9 });
    merges.push(MergeRange { start_col: 9, start_row: 10, end_col: 13, end_row: 10 });
    cells.push(
        Cell {
            col: 9,
            row: 9,
            value: CellValue::Text(data.game.opponent.clone()),
            style: StyleKind::StudentName,
        },
    );
    cells.push(
        Cell { col: 9, row: 10, value: CellValue::Text(short), style: StyleKind::StudentName },
    );
    borders.push(
        BorderStroke { col: 13, row: 9, edge: BorderEdge::Right, weight: BorderWeight::Thin },
    );
    borders.push(
        BorderStroke { col: 13, row: 10, edge: BorderEdge::Right, weight: BorderWeight::Thin },
    );
    proof {
        assert(cells.deep_view() =~= old(cells).deep_view() + spec_game_info_cells(
            *data,
            *generation_date,
        ));
        assert(merges.deep_view() =~= old(merges).deep_view() + spec_game_info_merges());
        assert(borders.deep_view() =~= old(borders).deep_view() + spec_game_info_borders());
    }
}

/// Assembles every cell, merge range and border stroke of a report
/// sheet: the static header part, then the two game areas over a
/// shared row budget. Fails exactly when a record's result string
/// cannot be split into two scores.
pub(crate) fn assemble_sheet(
    data: &Data,
    generation_date: &ReportDate,
    white: &GameRecord,
    black: &GameRecord,
) -> (r: Result<SheetLayout, LayoutError>)
    requires
        spec_valid_date(*generation_date),
        white@.moves.len() <= 1_000_000_000,
        black@.moves.len() <= 1_000_000_000,
    ensures
        match r {
            Ok(l) => {
                let t = spec_row_count(white@.moves.len(), black@.moves.len()) as int;
                &&& spec_has_dash(white@.result)
                &&& spec_has_dash(black@.result)
                &&& l.cells.deep_view() == spec_static_cells(*data, *generation_date)
                    + spec_game_cells(
                    white@.moves,
                    spec_result_white(white@.result),
                    spec_result_black(white@.result),
                    t,
                    0,
                ) + spec_game_cells(
                    black@.moves,
                    spec_result_white(black@.result),
                    spec_result_black(black@.result),
                    t,
                    1,
                )
                &&& l.merges.deep_view() == spec_report_merges()
                &&& l.borders.deep_view() == spec_static_borders() + spec_game_borders(t, 0)
                    + spec_game_borders(t, 1)
            },
            Err(e) => e == LayoutError::MalformedResult && !(spec_has_dash(white@.result)
                && spec_has_dash(black@.result)),
        },
{
    let mut cells: Vec<Cell> = Vec::new();
    let mut merges: Vec<MergeRange> = Vec::new();
    let mut borders: Vec<BorderStroke> = Vec::new();

    write_title(&mut cells, &mut merges);
    write_info(data, &mut cells, &mut merges, &mut borders);
    write_game_info(data, generation_date, &mut cells, &mut merges, &mut borders);
    proof {
        assert(cells.deep_view() =~= spec_static_cells(*data, *generation_date));
        assert(merges.deep_view() =~= spec_report_merges());
        assert(borders.deep_view() =~= spec_static_borders());
    }

    let total_rows = calc_row_count(white.moves.len(), black.moves.len());

    let grid_white = match layout_game(white, total_rows, 0) {
        Ok(g) => g,
        Err(e) => {
            return Err(e);
        },
    };
    let grid_black = match layout_game(black, total_rows, 1) {
        Ok(g) => g,
        Err(e) => {
            return Err(e);
        },
    };

    let GameGrid { cells: mut white_cells, borders: mut white_borders } = grid_white;
    let GameGrid { cells: mut black_cells, borders: mut black_borders } = grid_black;

    let ghost static_cells = cells.deep_view();
    let ghost wc = white_cells.deep_view();
    let ghost bcv = black_cells.deep_view();
    cells.append(&mut white_cells);
    proof {
        assert(cells.deep_view() =~= static_cells + wc);
    }
    let ghost cells_so_far = cells.deep_view();
    cells.append(&mut black_cells);
    proof {
        assert(cells.deep_view() =~= cells_so_far + bcv);
        assert(cells.deep_view() =~= static_cells + wc + bcv);
    }

    let ghost static_borders = borders.deep_view();
    let ghost wb = white_borders.deep_view();
    let ghost bb = black_borders.deep_view();
    borders.append(&mut white_borders);
    proof {
        assert(borders.deep_view() =~= static_borders + wb);
    }
    let ghost borders_so_far = borders.deep_view();
    borders.append(&mut black_borders);
    proof {
        assert(borders.deep_view() =~= borders_so_far + bb);
        assert(borders.deep_view() =~= static_borders + wb + bb);
    }

    Ok(SheetLayout { cells, merges, borders })
}

} // verus!
