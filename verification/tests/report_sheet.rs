use chess_report::cells::Cell;
use chess_report::cells::CellValue;
use chess_report::data::Data;
use chess_report::data::GameData;
use chess_report::data::StudentData;
use chess_report::data::SubjectData;
use chess_report::data::ValidationError;
use chess_report::grid::LayoutError;
use chess_report::pgn::GameRecord;
use chess_report::report::Report;
use chess_report::report::ReportDate;
use chess_report::report::format_date_dmy;
use chess_report::report::format_date_iso;

fn sample_data() -> Data {
    Data {
        student: StudentData {
            name: String::from("Иванов Иван Иванович"),
            group: String::from("Б05-123"),
            id: String::from("12345"),
        },
        subject: SubjectData {
            teacher: String::from("С.В. Иванов"),
            tournament: String::from("Шахматный турнир №3"),
        },
        game: GameData {
            opponent: String::from("maia1"),
            white_url: String::from("https://lichess.org/abcd1234wxyz"),
            black_url: String::from("https://lichess.org/wxyz4321abcd"),
        },
    }
}

fn record(moves: Vec<&str>, result: &str) -> GameRecord {
    GameRecord {
        moves: moves.into_iter().map(String::from).collect(),
        result: String::from(result),
    }
}

fn text_at(cells: &[Cell], col: u32, row: u32) -> Option<String> {
    for c in cells {
        if c.col == col && c.row == row {
            if let CellValue::Text(s) = &c.value {
                return Some(s.clone());
            }
        }
    }
    None
}

#[test]
fn dates_are_zero_padded() {
    let d = ReportDate { year: 2024, month: 3, day: 5 };
    assert_eq!(format_date_iso(&d), "2024-03-05");
    assert_eq!(format_date_dmy(&d), "05.03.2024");
    let d = ReportDate { year: 1999, month: 12, day: 31 };
    assert_eq!(format_date_iso(&d), "1999-12-31");
    assert_eq!(format_date_dmy(&d), "31.12.1999");
}

#[test]
fn filename_carries_student_id_and_date() {
    let report = Report::new(sample_data(), ReportDate { year: 2024, month: 3, day: 5 });
    assert_eq!(report.filename(), "Otchet_TK_FViS_12345_2024-03-05.xlsx");
}

#[test]
fn short_name_drops_the_patronymic() {
    let data = sample_data();
    assert_eq!(data.student.short_name(), "Иванов Иван");
}

#[test]
fn short_name_keeps_a_two_part_name() {
    let student = StudentData {
        name: String::from("Иванов Иван"),
        group: String::new(),
        id: String::new(),
    };
    assert_eq!(student.short_name(), "Иванов Иван");
}

#[test]
fn short_name_drops_only_the_last_part() {
    let student = StudentData {
        name: String::from("a b c d"),
        group: String::new(),
        id: String::new(),
    };
    assert_eq!(student.short_name(), "a b c");
}

#[test]
fn validation_accepts_two_good_urls() {
    assert_eq!(sample_data().validate(), Ok(()));
}

#[test]
fn validation_rejects_a_bad_white_url_first() {
    let mut data = sample_data();
    data.game.white_url = String::from("not a url");
    let err = data.validate().unwrap_err();
    assert_eq!(err, ValidationError::InvalidWhiteUrl);
    assert_eq!(err.message(), "Неверный формат ссылки на игру белыми");
}

#[test]
fn validation_rejects_a_bad_black_url() {
    let mut data = sample_data();
    data.game.black_url = String::from("data:text/plain,x");
    let err = data.validate().unwrap_err();
    assert_eq!(err, ValidationError::InvalidBlackUrl);
    assert_eq!(err.message(), "Неверный формат ссылки на игру черными");
}

#[test]
fn generated_sheet_holds_headers_and_both_games() {
    let report = Report::new(sample_data(), ReportDate { year: 2024, month: 3, day: 5 });
    let white = record(vec!["e4", "e5"], "1-0");
    let black = record(vec!["d4", "d5", "c4"], "0-1");
    let sheet = report.generate_spreadsheet(&white, &black).unwrap();

    // static header cells
    assert_eq!(text_at(&sheet.cells, 2, 4).as_deref(), Some("12345"));
    assert_eq!(
        text_at(&sheet.cells, 3, 4).as_deref(),
        Some("Иванов Иван Иванович")
    );
    assert_eq!(text_at(&sheet.cells, 7, 4).as_deref(), Some("Б05-123"));
    assert_eq!(text_at(&sheet.cells, 11, 4).as_deref(), Some("С.В. Иванов"));
    assert_eq!(
        text_at(&sheet.cells, 2, 8).as_deref(),
        Some("Шахматный турнир №3 05.03.2024")
    );
    // the student plays white in the first game and black in the second
    assert_eq!(text_at(&sheet.cells, 3, 9).as_deref(), Some("Иванов Иван"));
    assert_eq!(text_at(&sheet.cells, 3, 10).as_deref(), Some("maia1"));
    assert_eq!(text_at(&sheet.cells, 9, 9).as_deref(), Some("maia1"));
    assert_eq!(text_at(&sheet.cells, 9, 10).as_deref(), Some("Иванов Иван"));

    // both game areas are present, six columns apart
    assert_eq!(text_at(&sheet.cells, 3, 14).as_deref(), Some("e4"));
    assert_eq!(text_at(&sheet.cells, 4, 14).as_deref(), Some("e5"));
    assert_eq!(text_at(&sheet.cells, 9, 14).as_deref(), Some("d4"));
    assert_eq!(text_at(&sheet.cells, 10, 14).as_deref(), Some("d5"));
    assert_eq!(text_at(&sheet.cells, 9, 15).as_deref(), Some("c4"));

    // result footers of both games
    assert_eq!(text_at(&sheet.cells, 6, 44).as_deref(), Some("1"));
    assert_eq!(text_at(&sheet.cells, 7, 44).as_deref(), Some("0"));
    assert_eq!(text_at(&sheet.cells, 12, 44).as_deref(), Some("0"));
    assert_eq!(text_at(&sheet.cells, 13, 44).as_deref(), Some("1"));

    // 15 merge ranges and the static strokes before the two game frames
    assert_eq!(sheet.merges.len(), 15);
    assert_eq!(sheet.borders.len(), 4 + 44 + 44);
}

#[test]
fn generated_sheet_fails_on_a_malformed_result() {
    let report = Report::new(sample_data(), ReportDate { year: 2024, month: 3, day: 5 });
    let white = record(vec!["e4"], "?");
    let black = record(vec!["d4"], "0-1");
    assert!(matches!(
        report.generate_spreadsheet(&white, &black),
        Err(LayoutError::MalformedResult)
    ));
    let white = record(vec!["e4"], "1-0");
    let black = record(vec!["d4"], "unknown");
    assert!(matches!(
        report.generate_spreadsheet(&white, &black),
        Err(LayoutError::MalformedResult)
    ));
    assert_eq!(
        LayoutError::MalformedResult.message(),
        "failed to get result"
    );
}
