use chess_report::data::Data;
use chess_report::data::GameData;
use chess_report::data::StudentData;
use chess_report::data::SubjectData;
use chess_report::formatter::Formatter;
use chess_report::pgn::GameRecord;
use chess_report::report::Report;
use chess_report::report::ReportDate;

#[test]
fn formatter_lays_out_the_same_sheet_as_a_report() {
    let data = Data {
        student: StudentData {
            name: String::from("Петров Петр Петрович"),
            group: String::from("Б05-321"),
            id: String::from("54321"),
        },
        subject: SubjectData {
            teacher: String::from("С.В. Иванов"),
            tournament: String::from("Шахматный турнир №1"),
        },
        game: GameData {
            opponent: String::from("maia5"),
            white_url: String::from("https://lichess.org/abcd1234"),
            black_url: String::from("https://lichess.org/dcba4321"),
        },
    };
    let date = ReportDate { year: 2023, month: 11, day: 9 };
    let white = GameRecord {
        moves: vec![String::from("e4"), String::from("c5")],
        result: String::from("1/2-1/2"),
    };
    let black = GameRecord {
        moves: vec![String::from("Nf3")],
        result: String::from("0-1"),
    };

    let formatter = Formatter::new();
    let from_formatter = formatter.format_data(&data, &date, &white, &black).unwrap();

    let report = Report::new(data, date);
    let from_report = report.generate_spreadsheet(&white, &black).unwrap();

    assert_eq!(from_formatter.cells.len(), from_report.cells.len());
    assert_eq!(from_formatter.merges.len(), from_report.merges.len());
    assert_eq!(from_formatter.borders.len(), from_report.borders.len());
    for (a, b) in from_formatter.cells.iter().zip(from_report.cells.iter()) {
        assert_eq!(a.col, b.col);
        assert_eq!(a.row, b.row);
        assert_eq!(a.style, b.style);
    }
}
