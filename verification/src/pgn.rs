//! A fetched game, reduced to what the report reads: the ordered ply
//! notations and the result header.

use vstd::prelude::*;

verus! {

/// One game: the plies in order (white's first, then alternating) and the
/// result string of the form `<white-score>-<black-score>`.
pub struct GameRecord {
    pub moves: Vec<String>,
    pub result: String,
}

/// Mathematical content of a game record.
pub struct GameRecordModel {
    pub moves: Seq<Seq<char>>,
    pub result: Seq<char>,
}

impl View for GameRecord {
    type V = GameRecordModel;

    open spec fn view(&self) -> GameRecordModel {
        GameRecordModel { moves: self.moves.deep_view(), result: self.result@ }
    }
}

/// What parsing a PGN text yields: the ply notations in game order and the
/// value of the `Result` header (a question mark when the header is absent
/// or the text cannot be read as a game). The outcome depends on the PGN
/// text alone.
pub uninterp spec fn parsed_pgn(s: Seq<char>) -> (Seq<Seq<char>>, Seq<char>);

/// Relies on `pgnparse::parser::parse_pgn_to_rust_struct`, which turns a
/// PGN text into a header map and a move list (empty when the text cannot
/// be read), and on `PgnInfo::get_header`, which hands back a header's
/// value, or `"?"` when the map has no such header. Both depend on the
/// PGN text alone.
#[verifier::external_body]
fn parse_pgn_text(pgn: &str) -> (r: GameRecord)
    ensures
        r@.moves == parsed_pgn(pgn@).0,
        r@.result == parsed_pgn(pgn@).1,
{
    let mut info = pgnparse::parser::parse_pgn_to_rust_struct(String::from(pgn));
    let result = info.get_header("Result");
    let moves: Vec<String> = info.moves.into_iter().map(|m| m.san).collect();
    GameRecord { moves, result }
}

/// Reads a PGN text into a game record: the ply notations in order and the
/// game's result header.
pub fn game_record_from_pgn(pgn: &str) -> (r: GameRecord)
    ensures
        r@.moves == parsed_pgn(pgn@).0,
        r@.result == parsed_pgn(pgn@).1,
{
    parse_pgn_text(pgn)
}

} // verus!
