use chess_report::pgn::game_record_from_pgn;

#[test]
fn pgn_text_parses_into_moves_and_result() {
    let pgn = "[Event \"Casual game\"]\n[Result \"1-0\"]\n\n1. e4 e5 2. Nf3 Nc6 1-0\n";
    let rec = game_record_from_pgn(pgn);
    assert_eq!(rec.moves, vec!["e4", "e5", "Nf3", "Nc6"]);
    assert_eq!(rec.result, "1-0");
}

#[test]
fn missing_result_header_reads_as_a_question_mark() {
    let pgn = "[Event \"Casual game\"]\n\n1. d4 d5 *\n";
    let rec = game_record_from_pgn(pgn);
    assert_eq!(rec.moves, vec!["d4", "d5"]);
    assert_eq!(rec.result, "?");
}

#[test]
fn unreadable_text_yields_an_empty_record() {
    let rec = game_record_from_pgn("");
    assert!(rec.moves.is_empty());
    assert_eq!(rec.result, "?");
}
