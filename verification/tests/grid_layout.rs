use chess_report::cells::Cell;
use chess_report::cells::CellValue;
use chess_report::grid::LayoutError;
use chess_report::grid::layout_game;
use chess_report::pgn::GameRecord;

fn record(moves: Vec<&str>, result: &str) -> GameRecord {
    GameRecord {
        moves: moves.into_iter().map(String::from).collect(),
        result: String::from(result),
    }
}

fn text_at(cells: &[Cell], col: u32, row: u32) -> Option<String> {
    for c in cells {
        if c.col == col && c.row == row {
            if let CellValue::Text(s) = &c.value {
                return Some(s.clone());
            }
        }
    }
    None
}

fn number_at(cells: &[Cell], col: u32, row: u32) -> Option<u32> {
    for c in cells {
        if c.col == col && c.row == row {
            if let CellValue::Number(n) = &c.value {
                return Some(*n);
            }
        }
    }
    None
}

#[test]
fn three_ply_game_in_a_sixty_row_budget() {
    let rec = record(vec!["e4", "e5", "Nf3"], "1-0");
    let grid = layout_game(&rec, 60, 0).unwrap();
    let cells = &grid.cells;

    // the first block is 60 / 2 + 2 = 32 rows high, starting at row 14
    assert_eq!(number_at(cells, 2, 14), Some(1));
    assert_eq!(text_at(cells, 3, 14).as_deref(), Some("e4"));
    assert_eq!(text_at(cells, 4, 14).as_deref(), Some("e5"));
    assert_eq!(number_at(cells, 2, 15), Some(2));
    assert_eq!(text_at(cells, 3, 15).as_deref(), Some("Nf3"));
    assert_eq!(text_at(cells, 4, 15).as_deref(), Some("/"));
    for k in 2..32u32 {
        assert_eq!(number_at(cells, 2, 14 + k), Some(k + 1));
        assert_eq!(text_at(cells, 3, 14 + k).as_deref(), Some("/"));
        assert_eq!(text_at(cells, 4, 14 + k).as_deref(), Some("/"));
    }
    assert_eq!(number_at(cells, 2, 46), None);

    // the second block continues the numbering three columns to the right
    // and is four rows shorter
    assert_eq!(number_at(cells, 5, 14), Some(33));
    assert_eq!(text_at(cells, 6, 14).as_deref(), Some("/"));
    assert_eq!(number_at(cells, 5, 41), Some(60));
    assert_eq!(number_at(cells, 5, 42), None);
}

#[test]
fn header_labels_sit_over_both_blocks() {
    let rec = record(vec![], "1-0");
    let grid = layout_game(&rec, 60, 0).unwrap();
    assert_eq!(text_at(&grid.cells, 2, 13).as_deref(), Some("№"));
    assert_eq!(text_at(&grid.cells, 3, 13).as_deref(), Some("Белые"));
    assert_eq!(text_at(&grid.cells, 4, 13).as_deref(), Some("Черные"));
    assert_eq!(text_at(&grid.cells, 5, 13).as_deref(), Some("№"));
    assert_eq!(text_at(&grid.cells, 6, 13).as_deref(), Some("Белые"));
    assert_eq!(text_at(&grid.cells, 7, 13).as_deref(), Some("Черные"));
}

#[test]
fn second_game_area_sits_six_columns_to_the_right() {
    let rec = record(vec!["d4"], "0-1");
    let grid = layout_game(&rec, 60, 1).unwrap();
    assert_eq!(number_at(&grid.cells, 8, 14), Some(1));
    assert_eq!(text_at(&grid.cells, 9, 14).as_deref(), Some("d4"));
}

#[test]
fn result_footer_splits_the_score() {
    let rec = record(vec!["e4"], "1-0");
    let grid = layout_game(&rec, 60, 0).unwrap();
    let cells = &grid.cells;
    // the second block is 28 rows high, so the footer sits under row 41
    assert_eq!(text_at(cells, 5, 44).as_deref(), Some("Итог:"));
    assert_eq!(text_at(cells, 6, 43).as_deref(), Some("Белые"));
    assert_eq!(text_at(cells, 6, 44).as_deref(), Some("1"));
    assert_eq!(text_at(cells, 7, 43).as_deref(), Some("Черные"));
    assert_eq!(text_at(cells, 7, 44).as_deref(), Some("0"));
}

#[test]
fn drawn_result_keeps_both_halves() {
    let rec = record(vec!["e4"], "1/2-1/2");
    let grid = layout_game(&rec, 60, 0).unwrap();
    assert_eq!(text_at(&grid.cells, 6, 44).as_deref(), Some("1/2"));
    assert_eq!(text_at(&grid.cells, 7, 44).as_deref(), Some("1/2"));
}

#[test]
fn malformed_result_is_a_fatal_layout_error() {
    let rec = record(vec!["e4"], "?");
    assert!(matches!(
        layout_game(&rec, 60, 0),
        Err(LayoutError::MalformedResult)
    ));
    let rec = record(vec!["e4"], "");
    assert!(matches!(
        layout_game(&rec, 60, 0),
        Err(LayoutError::MalformedResult)
    ));
}

#[test]
fn full_game_fills_every_move_cell_exactly_once() {
    // 120 plies fill a 60-row budget exactly: two plies per budget row
    let names: Vec<String> = (0..120).map(|i| format!("m{i}")).collect();
    let rec = GameRecord {
        moves: names.clone(),
        result: String::from("1-0"),
    };
    let grid = layout_game(&rec, 60, 0).unwrap();

    let mut seen = vec![0usize; 120];
    let mut placeholders = 0usize;
    for c in &grid.cells {
        if c.row >= 14 {
            if let CellValue::Text(s) = &c.value {
                if s == "/" {
                    placeholders += 1;
                } else if let Some(rest) = s.strip_prefix('m') {
                    let i: usize = rest.parse().unwrap();
                    seen[i] += 1;
                }
            }
        }
    }
    assert_eq!(placeholders, 0);
    assert!(seen.iter().all(|&n| n == 1));
}

#[test]
fn short_game_shows_each_ply_once_and_pads_the_rest() {
    let names: Vec<String> = (0..7).map(|i| format!("m{i}")).collect();
    let rec = GameRecord {
        moves: names,
        result: String::from("0-1"),
    };
    let grid = layout_game(&rec, 60, 0).unwrap();

    let mut seen = vec![0usize; 7];
    let mut placeholders = 0usize;
    for c in &grid.cells {
        if c.row >= 14 {
            if let CellValue::Text(s) = &c.value {
                if s == "/" {
                    placeholders += 1;
                } else if let Some(rest) = s.strip_prefix('m') {
                    let i: usize = rest.parse().unwrap();
                    seen[i] += 1;
                }
            }
        }
    }
    // 60 rows hold 120 ply cells; 7 are filled, the rest are padded
    assert_eq!(placeholders, 120 - 7);
    assert!(seen.iter().all(|&n| n == 1));
}

#[test]
fn border_strokes_frame_the_game_area() {
    let rec = record(vec!["e4"], "1-0");
    let grid = layout_game(&rec, 60, 0).unwrap();
    // 6 strokes over the top, 6 under the footer, 32 down the right edge
    assert_eq!(grid.borders.len(), 44);
}
