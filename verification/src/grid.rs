//! The move grid of one game.
//!
//! Each game occupies a six-column area selected by its game index. The
//! area holds two vertically stacked sub-blocks of move rows side by side:
//! the first block shows move pairs from the top of the game, the second
//! continues the numbering, and every row of both blocks is filled up to
//! the shared row budget, with a placeholder past the end of the game.
//! Below the second block sit the result footer cells, parsed from the
//! record's result string.

use vstd::prelude::*;
use vstd::string::StrSliceExecFns;
use vstd::string::StringExecFns;

use crate::cells::BorderEdge;
use crate::cells::BorderModel;
use crate::cells::BorderStroke;
use crate::cells::BorderWeight;
use crate::cells::Cell;
use crate::cells::CellContent;
use crate::cells::CellModel;
use crate::cells::CellValue;
use crate::cells::StyleKind;
use crate::pgn::GameRecord;

verus! {

/// A structural fault that stops a layout: the record's result string has
/// no separator to split a white and a black score on.
#[derive(Clone, Copy, Debug, PartialEq, Eq, Structural)]
pub enum LayoutError {
    MalformedResult,
}

impl LayoutError {
    /// A short description of the fault.
    pub fn message(&self) -> (r: String)
        ensures
            r@ == "failed to get result"@,
    {
        String::from_str("failed to get result")
    }
}

/// Whether the sequence holds a dash separator anywhere.
pub open spec fn spec_has_dash(s: Seq<char>) -> bool {
    exists|i: int| 0 <= i < s.len() && s[i] == '-'
}

/// Index of the first dash of the sequence, or its length when it has none.
pub open spec fn spec_first_dash(s: Seq<char>) -> int
    decreases s.len(),
{
    if s.len() == 0 {
        0
    } else if s[0] == '-' {
        0
    } else {
        1 + spec_first_dash(s.subrange(1, s.len() as int))
    }
}

/// Everything before the first dash (the whole sequence when it has none).
pub open spec fn spec_before_dash(s: Seq<char>) -> Seq<char> {
    s.subrange(0, spec_first_dash(s))
}

/// The white score of a result string: everything before the first dash.
pub open spec fn spec_result_white(s: Seq<char>) -> Seq<char> {
    spec_before_dash(s)
}

/// The black score of a result string: everything between the first dash
/// and the following dash or the end.
pub open spec fn spec_result_black(s: Seq<char>) -> Seq<char> {
    spec_before_dash(s.subrange(spec_first_dash(s) + 1, s.len() as int))
}

/// The first dash index lies in the sequence exactly when a dash exists,
/// carries a dash, and nothing before it does.
pub proof fn lemma_first_dash(s: Seq<char>)
    ensures
        0 <= spec_first_dash(s) <= s.len(),
        spec_has_dash(s) <==> spec_first_dash(s) < s.len(),
        spec_first_dash(s) < s.len() ==> s[spec_first_dash(s)] == '-',
        forall|k: int| 0 <= k < spec_first_dash(s) ==> s[k] != '-',
    decreases s.len(),
{
    if s.len() == 0 {
    } else if s[0] == '-' {
    } else {
        let tail = s.subrange(1, s.len() as int);
        lemma_first_dash(tail);
        assert(forall|k: int| 0 <= k < tail.len() ==> tail[k] == s[k + 1]);
        if spec_has_dash(s) {
            let w = choose|i: int| 0 <= i < s.len() && s[i] == '-';
            assert(tail[w - 1] == '-');
            assert(spec_has_dash(tail));
        }
        if spec_has_dash(tail) {
            let w = choose|i: int| 0 <= i < tail.len() && tail[i] == '-';
            assert(s[w + 1] == '-');
            assert(spec_has_dash(s));
        }
        assert forall|k: int| 0 <= k < spec_first_dash(s) implies s[k] != '-' by {
            if k >= 1 {
                assert(tail[k - 1] != '-');
            }
        }
    }
}

/// An index with a dash and no dash before it is the first dash index; a
/// dash-free sequence has its length as the first dash index.
pub proof fn lemma_first_dash_unique(s: Seq<char>, i: int)
    requires
        0 <= i <= s.len(),
        forall|k: int| 0 <= k < i ==> s[k] != '-',
        i < s.len() ==> s[i] == '-',
    ensures
        spec_first_dash(s) == i,
{
    lemma_first_dash(s);
    let fd = spec_first_dash(s);
    if i < s.len() {
        assert(spec_has_dash(s));
        if fd < i {
            assert(s[fd] != '-');
            assert(false);
        }
        if i < fd {
            assert(false);
        }
    } else {
        if fd < s.len() {
            assert(s[fd] == '-');
            assert(false);
        }
    }
}

/// Finds the first dash of `s` at or after `from`, or the length of `s`
/// when there is none there.
fn find_dash(s: &str, from: usize) -> (r: usize)
    requires
        from <= s@.len(),
    ensures
        from <= r <= s@.len(),
        forall|k: int| from <= k < r ==> s@[k] != '-',
        r < s@.len() ==> s@[r as int] == '-',
{
    let n = s.unicode_len();
    let mut i = from;
    loop
        invariant
            from <= i <= n,
            n == s@.len(),
            forall|k: int| from <= k < i ==> s@[k] != '-',
        decreases n - i,
    {
        if i >= n {
            return i;
        }
        if s.get_char(i) == '-' {
            return i;
        }
        i = i + 1;
    }
}

/// Splits a result string on its dash separator into the white and the
/// black score, or nothing when the string holds no dash at all.
pub fn split_result(s: &str) -> (r: Option<(String, String)>)
    ensures
        match r {
            Some(parts) => spec_has_dash(s@) && parts.0@ == spec_result_white(s@) && parts.1@
                == spec_result_black(s@),
            None => !spec_has_dash(s@),
        },
{
    let n = s.unicode_len();
    let i = find_dash(s, 0);
    if i == n {
        proof {
            lemma_first_dash(s@);
            lemma_first_dash_unique(s@, n as int);
        }
        return None;
    }
    let white = String::from_str(s.substring_char(0, i));
    let j = find_dash(s, i + 1);
    let black = String::from_str(s.substring_char(i + 1, j));
    proof {
        lemma_first_dash_unique(s@, i as int);
        let tail = s@.subrange(i + 1, s@.len() as int);
        assert(forall|k: int| 0 <= k < tail.len() ==> tail[k] == s@[k + i + 1]);
        lemma_first_dash_unique(tail, j - i - 1);
        assert(tail.subrange(0, j - i - 1) =~= s@.subrange(i + 1, j as int));
        assert(spec_has_dash(s@));
    }
    Some((white, black))
}


/// Height in rows of the first sub-block: half the row budget plus two.
pub open spec fn spec_block_a_height(t: int) -> int {
    t / 2 + 2
}

/// Height in rows of the second sub-block: four rows shorter than the
/// first, leaving room for the result footer.
pub open spec fn spec_block_b_height(t: int) -> int {
    t / 2 - 2
}

/// First column of a game's six-column area.
pub open spec fn spec_base_col(idx: int) -> int {
    idx * 6 + 2
}

/// The marker shown in a move cell past the end of the game.
pub open spec fn spec_placeholder() -> Seq<char> {
    "/"@
}

/// What the move cell of ply `p` shows: the ply's notation inside the
/// game, the placeholder beyond it.
pub open spec fn spec_ply_cell_text(moves: Seq<Seq<char>>, p: int) -> Seq<char> {
    if 0 <= p < moves.len() {
        moves[p]
    } else {
        spec_placeholder()
    }
}

/// Label of column `j` of the game area header row.
pub open spec fn spec_column_label(j: int) -> Seq<char> {
    if j == 0 || j == 3 {
        "№"@
    } else if j == 1 || j == 4 {
        "Белые"@
    } else {
        "Черные"@
    }
}

/// Cell `i` of the first sub-block, counted three per row: the move
/// number, then the white ply, then the black ply of pair `i / 3`.
pub open spec fn spec_block_a_cell(moves: Seq<Seq<char>>, bc: int, i: int) -> CellModel {
    let k = i / 3;
    let f = i % 3;
    if f == 0 {
        CellModel {
            col: bc,
            row: 14 + k,
            value: CellContent::Number(k + 1),
            style: StyleKind::GameMoveNumber,
        }
    } else {
        CellModel {
            col: bc + f,
            row: 14 + k,
            value: CellContent::Text(spec_ply_cell_text(moves, 2 * k + (f - 1))),
            style: StyleKind::GameMove,
        }
    }
}

/// Cell `i` of the second sub-block: as in the first block, but three
/// columns to the right and with pair indices continued past the first
/// block's height.
pub open spec fn spec_block_b_cell(moves: Seq<Seq<char>>, t: int, bc: int, i: int) -> CellModel {
    let h = spec_block_a_height(t);
    let k = i / 3;
    let f = i % 3;
    if f == 0 {
        CellModel {
            col: bc + 3,
            row: 14 + k,
            value: CellContent::Number(k + 1 + h),
            style: StyleKind::GameMoveNumber,
        }
    } else {
        CellModel {
            col: bc + 3 + f,
            row: 14 + k,
            value: CellContent::Text(spec_ply_cell_text(moves, 2 * (k + h) + (f - 1))),
            style: StyleKind::GameMove,
        }
    }
}

/// Cell `i` of the result footer under the second sub-block: the caption,
/// the two side labels, the two scores, and the empty continuation of the
/// number column.
pub open spec fn spec_footer_cell(rw: Seq<char>, rb: Seq<char>, t: int, bc: int, i: int) -> CellModel {
    let base = 14 + spec_block_b_height(t);
    if i == 0 {
        CellModel {
            col: bc + 3,
            row: base + 2,
            value: CellContent::Text("Итог:"@),
            style: StyleKind::GameMoveNumberFiller,
        }
    } else if i == 1 {
        CellModel {
            col: bc + 4,
            row: base + 1,
            value: CellContent::Text("Белые"@),
            style: StyleKind::GameResult,
        }
    } else if i == 2 {
        CellModel {
            col: bc + 4,
            row: base + 2,
            value: CellContent::Text(rw),
            style: StyleKind::GameResult,
        }
    } else if i == 3 {
        CellModel {
            col: bc + 5,
            row: base + 1,
            value: CellContent::Text("Черные"@),
            style: StyleKind::GameResult,
        }
    } else if i == 4 {
        CellModel {
            col: bc + 5,
            row: base + 2,
            value: CellContent::Text(rb),
            style: StyleKind::GameResult,
        }
    } else if i == 5 {
        CellModel {
            col: bc + 3,
            row: base,
            value: CellContent::Empty,
            style: StyleKind::GameMoveNumberFiller,
        }
    } else if i == 6 {
        CellModel {
            col: bc + 3,
            row: base + 1,
            value: CellContent::Empty,
            style: StyleKind::GameMoveNumberFiller,
        }
    } else {
        CellModel {
            col: bc + 3,
            row: base + 3,
            value: CellContent::Empty,
            style: StyleKind::GameMoveNumberFiller,
        }
    }
}

/// How many cells one game's area holds.
pub open spec fn spec_cell_count(t: int) -> int {
    6 + 3 * spec_block_a_height(t) + 3 * spec_block_b_height(t) + 8
}

/// Cell `m` of one game's area, in writing order: the six header labels,
/// the first sub-block, the second sub-block, the result footer.
pub open spec fn spec_game_cell_at(
    moves: Seq<Seq<char>>,
    rw: Seq<char>,
    rb: Seq<char>,
    t: int,
    idx: int,
    m: int,
) -> CellModel {
    let bc = spec_base_col(idx);
    let h = spec_block_a_height(t);
    let hb = spec_block_b_height(t);
    if m < 6 {
        CellModel {
            col: bc + m,
            row: 13,
            value: CellContent::Text(spec_column_label(m)),
            style: StyleKind::Plain,
        }
    } else if m < 6 + 3 * h {
        spec_block_a_cell(moves, bc, m - 6)
    } else if m < 6 + 3 * h + 3 * hb {
        spec_block_b_cell(moves, t, bc, m - 6 - 3 * h)
    } else {
        spec_footer_cell(rw, rb, t, bc, m - 6 - 3 * h - 3 * hb)
    }
}

/// Every cell of one game's area.
pub open spec fn spec_game_cells(
    moves: Seq<Seq<char>>,
    rw: Seq<char>,
    rb: Seq<char>,
    t: int,
    idx: int,
) -> Seq<CellModel> {
    Seq::new(spec_cell_count(t) as nat, |m: int| spec_game_cell_at(moves, rw, rb, t, idx, m))
}

/// How many border strokes one game's area gets.
pub open spec fn spec_border_count(t: int) -> int {
    12 + spec_block_b_height(t) + 4
}

/// Border stroke `m` of one game's area: a medium line over each of the
/// six columns' first move row, a medium line under the footer, then a
/// medium line down the right edge.
pub open spec fn spec_game_border_at(t: int, idx: int, m: int) -> BorderModel {
    let bc = spec_base_col(idx);
    let hb = spec_block_b_height(t);
    if m < 6 {
        BorderModel { col: bc + m, row: 14, edge: BorderEdge::Top, weight: BorderWeight::Medium }
    } else if m < 12 {
        BorderModel {
            col: bc + (m - 6),
            row: 14 + hb + 4,
            edge: BorderEdge::Top,
            weight: BorderWeight::Medium,
        }
    } else {
        BorderModel {
            col: bc + 5,
            row: 14 + (m - 12),
            edge: BorderEdge::Right,
            weight: BorderWeight::Medium,
        }
    }
}

/// Every border stroke of one game's area.
pub open spec fn spec_game_borders(t: int, idx: int) -> Seq<BorderModel> {
    Seq::new(spec_border_count(t) as nat, |m: int| spec_game_border_at(t, idx, m))
}

/// The complete layout of one game's area.
pub struct GameGrid {
    pub cells: Vec<Cell>,
    pub borders: Vec<BorderStroke>,
}

/// Lays out one game inside the shared row budget: every cell and border
/// stroke of its six-column area, or the malformed-result fault when the
/// record's result string holds no dash to split the two scores on.
pub fn layout_game(record: &GameRecord, total_rows: u32, game_index: u32) -> (r: Result<
    GameGrid,
    LayoutError,
>)
    requires
        game_index <= 1,
        4 <= total_rows,
        total_rows <= 1_000_000_000,
    ensures
        match r {
            Ok(g) => spec_has_dash(record@.result) && g.cells.deep_view() == spec_game_cells(
                record@.moves,
                spec_result_white(record@.result),
                spec_result_black(record@.result),
                total_rows as int,
                game_index as int,
            ) && g.borders.deep_view() == spec_game_borders(
                total_rows as int,
                game_index as int,
            ),
            Err(e) => e == LayoutError::MalformedResult && !spec_has_dash(record@.result),
        },
{
    let parts = match split_result(record.result.as_str()) {
        Some(p) => p,
        None => {
            return Err(LayoutError::MalformedResult);
        },
    };
    let (result_white, result_black) = parts;

    let base_col: u32 = game_index * 6 + 2;
    let height_a: u32 = total_rows / 2 + 2;
    let height_b: u32 = height_a - 4;

    let ghost moves: Seq<Seq<char>> = record@.moves;
    let ghost rwv: Seq<char> = result_white@;
    let ghost rbv: Seq<char> = result_black@;
    let ghost bc: int = base_col as int;
    let ghost t: int = total_rows as int;
    let ghost idx: int = game_index as int;

    let mut cells: Vec<Cell> = Vec::new();

    cells.push(
        Cell {
            col: base_col,
            row: 13,
            value: CellValue::Text(String::from_str("№")),
            style: StyleKind::Plain,
        },
    );
    cells.push(
        Cell {
            col: base_col + 1,
            row: 13,
            value: CellValue::Text(String::from_str("Белые")),
            style: StyleKind::Plain,
        },
    );
    cells.push(
        Cell {
            col: base_col + 2,
            row: 13,
            value: CellValue::Text(String::from_str("Черные")),
            style: StyleKind::Plain,
        },
    );
    cells.push(
        Cell {
            col: base_col + 3,
            row: 13,
            value: CellValue::Text(String::from_str("№")),
            style: StyleKind::Plain,
        },
    );
    cells.push(
        Cell {
            col: base_col + 4,
            row: 13,
            value: CellValue::Text(String::from_str("Белые")),
            style: StyleKind::Plain,
        },
    );
    cells.push(
        Cell {
            col: base_col + 5,
            row: 13,
            value: CellValue::Text(String::from_str("Черные")),
            style: StyleKind::Plain,
        },
    );
    proof {
        assert(cells@.len() == 6);
        assert(forall|m: int|
            0 <= m < 6 ==> cells@[m].deep_view() == spec_game_cell_at(moves, rwv, rbv, t, idx, m));
    }

    let mut k: u32 = 0;
    while k < height_a
        invariant
            k <= height_a,
            height_a == spec_block_a_height(t),
            4 <= t <= 1_000_000_000,
            t == total_rows as int,
            idx == game_index as int,
            bc == base_col as int,
            bc == spec_base_col(idx),
            base_col <= 8,
            moves == record@.moves,
            cells@.len() == 6 + 3 * k as int,
            forall|m: int|
                0 <= m < cells@.len() ==> cells@[m].deep_view() == spec_game_cell_at(
                    moves,
                    rwv,
                    rbv,
                    t,
                    idx,
                    m,
                ),
        decreases height_a - k,
    {
        let wi: usize = 2 * (k as usize);
        let bi: usize = 2 * (k as usize) + 1;
        let white_val = if wi < record.moves.len() {
            CellValue::Text(record.moves[wi].clone())
        } else {
            CellValue::Text(String::from_str("/"))
        };
        let black_val = if bi < record.moves.len() {
            CellValue::Text(record.moves[bi].clone())
        } else {
            CellValue::Text(String::from_str("/"))
        };
        cells.push(
            Cell {
                col: base_col,
                row: 14 + k,
                value: CellValue::Number(k + 1),
                style: StyleKind::GameMoveNumber,
            },
        );
        cells.push(
            Cell { col: base_col + 1, row: 14 + k, value: white_val, style: StyleKind::GameMove },
        );
        cells.push(
            Cell { col: base_col + 2, row: 14 + k, value: black_val, style: StyleKind::GameMove },
        );
        proof {
            let ki = k as int;
            assert((3 * ki) / 3 == ki && (3 * ki) % 3 == 0) by (nonlinear_arith);
            assert((3 * ki + 1) / 3 == ki && (3 * ki + 1) % 3 == 1) by (nonlinear_arith);
            assert((3 * ki + 2) / 3 == ki && (3 * ki + 2) % 3 == 2) by (nonlinear_arith);
            assert(cells@[6 + 3 * ki].deep_view() == spec_block_a_cell(moves, bc, 3 * ki));
            assert(cells@[6 + 3 * ki + 1].deep_view() == spec_block_a_cell(moves, bc, 3 * ki + 1));
            assert(cells@[6 + 3 * ki + 2].deep_view() == spec_block_a_cell(moves, bc, 3 * ki + 2));
        }
        k = k + 1;
    }

    let mut k: u32 = 0;
    while k < height_b
        invariant
            k <= height_b,
            height_a == spec_block_a_height(t),
            height_b == spec_block_b_height(t),
            4 <= t <= 1_000_000_000,
            t == total_rows as int,
            idx == game_index as int,
            bc == base_col as int,
            bc == spec_base_col(idx),
            base_col <= 8,
            moves == record@.moves,
            cells@.len() == 6 + 3 * spec_block_a_height(t) + 3 * k as int,
            forall|m: int|
                0 <= m < cells@.len() ==> cells@[m].deep_view() == spec_game_cell_at(
                    moves,
                    rwv,
                    rbv,
                    t,
                    idx,
                    m,
                ),
        decreases height_b - k,
    {
        let pair: usize = (k + height_a) as usize;
        let wi: usize = 2 * pair;
        let bi: usize = 2 * pair + 1;
        let white_val = if wi < record.moves.len() {
            CellValue::Text(record.moves[wi].clone())
        } else {
            CellValue::Text(String::from_str("/"))
        };
        let black_val = if bi < record.moves.len() {
            CellValue::Text(record.moves[bi].clone())
        } else {
            CellValue::Text(String::from_str("/"))
        };
        cells.push(
            Cell {
                col: base_col + 3,
                row: 14 + k,
                value: CellValue::Number(k + 1 + height_a),
                style: StyleKind::GameMoveNumber,
            },
        );
        cells.push(
            Cell { col: base_col + 4, row: 14 + k, value: white_val, style: StyleKind::GameMove },
        );
        cells.push(
            Cell { col: base_col + 5, row: 14 + k, value: black_val, style: StyleKind::GameMove },
        );
        proof {
            let ki = k as int;
            assert((3 * ki) / 3 == ki && (3 * ki) % 3 == 0) by (nonlinear_arith);
            assert((3 * ki + 1) / 3 == ki && (3 * ki + 1) % 3 == 1) by (nonlinear_arith);
            assert((3 * ki + 2) / 3 == ki && (3 * ki + 2) % 3 == 2) by (nonlinear_arith);
            let off = 6 + 3 * spec_block_a_height(t);
            assert(cells@[off + 3 * ki].deep_view() == spec_block_b_cell(moves, t, bc, 3 * ki));
            assert(cells@[off + 3 * ki + 1].deep_view() == spec_block_b_cell(
                moves,
                t,
                bc,
                3 * ki + 1,
            ));
            assert(cells@[off + 3 * ki + 2].deep_view() == spec_block_b_cell(
                moves,
                t,
                bc,
                3 * ki + 2,
            ));
        }
        k = k + 1;
    }

    let footer_base: u32 = 14 + height_b;
    cells.push(
        Cell {
            col: base_col + 3,
            row: footer_base + 2,
            value: CellValue::Text(String::from_str("Итог:")),
            style: StyleKind::GameMoveNumberFiller,
        },
    );
    cells.push(
        Cell {
            col: base_col + 4,
            row: footer_base + 1,
            value: CellValue::Text(String::from_str("Белые")),
            style: StyleKind::GameResult,
        },
    );
    cells.push(
        Cell {
            col: base_col + 4,
            row: footer_base + 2,
            value: CellValue::Text(result_white),
            style: StyleKind::GameResult,
        },
    );
    cells.push(
        Cell {
            col: base_col + 5,
            row: footer_base + 1,
            value: CellValue::Text(String::from_str("Черные")),
            style: StyleKind::GameResult,
        },
    );
    cells.push(
        Cell {
            col: base_col + 5,
            row: footer_base + 2,
            value: CellValue::Text(result_black),
            style: StyleKind::GameResult,
        },
    );
    cells.push(
        Cell {
            col: base_col + 3,
            row: footer_base,
            value: CellValue::Empty,
            style: StyleKind::GameMoveNumberFiller,
        },
    );
    cells.push(
        Cell {
            col: base_col + 3,
            row: footer_base + 1,
            value: CellValue::Empty,
            style: StyleKind::GameMoveNumberFiller,
        },
    );
    cells.push(
        Cell {
            col: base_col + 3,
            row: footer_base + 3,
            value: CellValue::Empty,
            style: StyleKind::GameMoveNumberFiller,
        },
    );
    proof {
        let off = 6 + 3 * spec_block_a_height(t) + 3 * spec_block_b_height(t);
        assert(cells@.len() == off + 8);
        assert(forall|j: int|
            0 <= j < 8 ==> cells@[off + j].deep_view() == spec_footer_cell(rwv, rbv, t, bc, j));
        assert(cells.deep_view() =~= spec_game_cells(
            record@.moves,
            spec_result_white(record@.result),
            spec_result_black(record@.result),
            t,
            idx,
        ));
    }

    let mut borders: Vec<BorderStroke> = Vec::new();
    let mut i: u32 = 0;
    while i < 6
        invariant
            i <= 6,
            t == total_rows as int,
            idx == game_index as int,
            bc == base_col as int,
            bc == spec_base_col(idx),
            base_col <= 8,
            borders@.len() == i as int,
            forall|m: int|
                0 <= m < borders@.len() ==> borders@[m].deep_view() == spec_game_border_at(
                    t,
                    idx,
                    m,
                ),
        decreases 6 - i,
    {
        borders.push(
            BorderStroke {
                col: base_col + i,
                row: 14,
                edge: BorderEdge::Top,
                weight: BorderWeight::Medium,
            },
        );
        i = i + 1;
    }

    let bottom_row: u32 = 14 + height_b + 4;
    let mut i: u32 = 0;
    while i < 6
        invariant
            i <= 6,
            t == total_rows as int,
            idx == game_index as int,
            bc == base_col as int,
            bc == spec_base_col(idx),
            base_col <= 8,
            height_b == spec_block_b_height(t),
            bottom_row == 14 + spec_block_b_height(t) + 4,
            borders@.len() == 6 + i as int,
            forall|m: int|
                0 <= m < borders@.len() ==> borders@[m].deep_view() == spec_game_border_at(
                    t,
                    idx,
                    m,
                ),
        decreases 6 - i,
    {
        borders.push(
            BorderStroke {
                col: base_col + i,
                row: bottom_row,
                edge: BorderEdge::Top,
                weight: BorderWeight::Medium,
            },
        );
        i = i + 1;
    }

    let right_rows: u32 = height_b + 4;
    let mut i: u32 = 0;
    while i < right_rows
        invariant
            i <= right_rows,
            t == total_rows as int,
            idx == game_index as int,
            bc == base_col as int,
            bc == spec_base_col(idx),
            base_col <= 8,
            height_b == spec_block_b_height(t),
            right_rows == spec_block_b_height(t) + 4,
            right_rows <= 1_000_000_000,
            borders@.len() == 12 + i as int,
            forall|m: int|
                0 <= m < borders@.len() ==> borders@[m].deep_view() == spec_game_border_at(
                    t,
                    idx,
                    m,
                ),
        decreases right_rows - i,
    {
        borders.push(
            BorderStroke {
                col: base_col + 5,
                row: 14 + i,
                edge: BorderEdge::Right,
                weight: BorderWeight::Medium,
            },
        );
        i = i + 1;
    }

    proof {
        assert(borders.deep_view() =~= spec_game_borders(t, idx));
    }

    Ok(GameGrid { cells, borders })
}

/// Whether cell index `m` of a game area is a ply cell: a white or black
/// move column of either sub-block.
pub open spec fn spec_is_ply_cell(t: int, m: int) -> bool {
    let h = spec_block_a_height(t);
    let hb = spec_block_b_height(t);
    (6 <= m < 6 + 3 * h && (m - 6) % 3 != 0) || (6 + 3 * h <= m < 6 + 3 * h + 3 * hb && (m - 6 - 3
        * h) % 3 != 0)
}

/// Which ply index the ply cell `m` shows.
pub open spec fn spec_cell_ply(t: int, m: int) -> int {
    let h = spec_block_a_height(t);
    if m < 6 + 3 * h {
        let i = m - 6;
        2 * (i / 3) + (i % 3 - 1)
    } else {
        let i = m - 6 - 3 * h;
        2 * (i / 3 + h) + (i % 3 - 1)
    }
}

/// The cell index that shows ply `p`: in the first sub-block for the first
/// `2 * height` plies, in the second sub-block after them.
pub open spec fn spec_ply_cell_index(t: int, p: int) -> int {
    let h = spec_block_a_height(t);
    if p < 2 * h {
        6 + 3 * (p / 2) + 1 + (p % 2)
    } else {
        6 + 3 * h + 3 * ((p - 2 * h) / 2) + 1 + ((p - 2 * h) % 2)
    }
}

/// Every ply cell of a game area shows the text of its own ply slot: the
/// ply's notation inside the game, the placeholder beyond its end.
pub proof fn lemma_ply_cell_content(
    moves: Seq<Seq<char>>,
    rw: Seq<char>,
    rb: Seq<char>,
    t: int,
    idx: int,
    m: int,
)
    requires
        4 <= t,
        spec_is_ply_cell(t, m),
    ensures
        0 <= spec_cell_ply(t, m) < 2 * (spec_block_a_height(t) + spec_block_b_height(t)),
        spec_game_cells(moves, rw, rb, t, idx)[m].value == CellContent::Text(
            spec_ply_cell_text(moves, spec_cell_ply(t, m)),
        ),
{
    let h = spec_block_a_height(t);
    let hb = spec_block_b_height(t);
    let bc = spec_base_col(idx);
    let cells = spec_game_cells(moves, rw, rb, t, idx);
    assert(cells[m] == spec_game_cell_at(moves, rw, rb, t, idx, m));
    if m < 6 + 3 * h {
        let i = m - 6;
        assert(cells[m] == spec_block_a_cell(moves, bc, i));
        assert(i / 3 < h && 0 <= i / 3) by (nonlinear_arith)
            requires
                0 <= i < 3 * h,
        ;
    } else {
        let i = m - 6 - 3 * h;
        assert(cells[m] == spec_block_b_cell(moves, t, bc, i));
        assert(i / 3 < hb && 0 <= i / 3) by (nonlinear_arith)
            requires
                0 <= i < 3 * hb,
        ;
    }
}

/// A ply cell whose ply slot lies at or beyond the end of the game shows
/// the placeholder.
pub proof fn lemma_cell_beyond_game_holds_placeholder(
    moves: Seq<Seq<char>>,
    rw: Seq<char>,
    rb: Seq<char>,
    t: int,
    idx: int,
    m: int,
)
    requires
        4 <= t,
        spec_is_ply_cell(t, m),
        spec_cell_ply(t, m) >= moves.len(),
    ensures
        spec_game_cells(moves, rw, rb, t, idx)[m].value == CellContent::Text(spec_placeholder()),
{
    lemma_ply_cell_content(moves, rw, rb, t, idx, m);
}

/// Every ply index inside the game appears in exactly one ply cell across
/// the two sub-blocks, provided the row budget is even (as the row count
/// computation always makes it) and the game fits the budget.
pub proof fn lemma_ply_shown_exactly_once(
    moves: Seq<Seq<char>>,
    rw: Seq<char>,
    rb: Seq<char>,
    t: int,
    idx: int,
    p: int,
)
    requires
        4 <= t,
        t % 2 == 0,
        0 <= p < moves.len(),
        moves.len() <= 2 * t,
    ensures
        spec_is_ply_cell(t, spec_ply_cell_index(t, p)),
        spec_cell_ply(t, spec_ply_cell_index(t, p)) == p,
        spec_game_cells(moves, rw, rb, t, idx)[spec_ply_cell_index(t, p)].value
            == CellContent::Text(moves[p]),
        forall|j: int|
            spec_is_ply_cell(t, j) && spec_cell_ply(t, j) == p ==> j == spec_ply_cell_index(t, p),
{
    let h = spec_block_a_height(t);
    let hb = spec_block_b_height(t);
    let m = spec_ply_cell_index(t, p);
    assert(h + hb == t);
    if p < 2 * h {
        let q = p / 2;
        let r = p % 2;
        assert(p == 2 * q + r && 0 <= r < 2);
        assert(q < h);
        let i = 3 * q + 1 + r;
        assert(i / 3 == q && i % 3 == 1 + r) by (nonlinear_arith)
            requires
                i == 3 * q + 1 + r && 0 <= r < 2 && 0 <= q,
        ;
        assert(m == 6 + i);
        assert(i < 3 * h);
        assert(spec_is_ply_cell(t, m));
        assert(spec_cell_ply(t, m) == p);
    } else {
        let pq = p - 2 * h;
        assert(0 <= pq);
        assert(p < 2 * t);
        assert(pq < 2 * hb);
        let q = pq / 2;
        let r = pq % 2;
        assert(pq == 2 * q + r && 0 <= r < 2);
        assert(q < hb);
        let i = 3 * q + 1 + r;
        assert(i / 3 == q && i % 3 == 1 + r) by (nonlinear_arith)
            requires
                i == 3 * q + 1 + r && 0 <= r < 2 && 0 <= q,
        ;
        assert(m == 6 + 3 * h + i);
        assert(i < 3 * hb);
        assert(spec_is_ply_cell(t, m));
        assert(spec_cell_ply(t, m) == p);
    }
    lemma_ply_cell_content(moves, rw, rb, t, idx, m);
    assert(spec_ply_cell_text(moves, p) == moves[p]);
    assert forall|j: int| spec_is_ply_cell(t, j) && spec_cell_ply(t, j) == p implies j == m by {
        if j < 6 + 3 * h {
            let i = j - 6;
            let k = i / 3;
            let f = i % 3;
            assert(i == 3 * k + f && 1 <= f <= 2);
            assert(p == 2 * k + (f - 1));
            assert(p / 2 == k && p % 2 == f - 1);
            assert(p < 2 * h) by (nonlinear_arith)
                requires
                    p == 2 * k + (f - 1) && 1 <= f <= 2 && k < h && i == 3 * k + f && 0 <= i < 3
                        * h,
            ;
        } else {
            let i = j - 6 - 3 * h;
            let k = i / 3;
            let f = i % 3;
            assert(i == 3 * k + f && 1 <= f <= 2);
            assert(p == 2 * (k + h) + (f - 1));
            assert(p >= 2 * h);
            let pq = p - 2 * h;
            assert(pq == 2 * k + (f - 1));
            assert(pq / 2 == k && pq % 2 == f - 1);
        }
    }
}

/// A game that fills the budget exactly, with two plies for every row of
/// the shared budget, leaves no placeholder: every ply cell shows a ply of
/// the game.
pub proof fn lemma_full_game_leaves_no_placeholder(
    moves: Seq<Seq<char>>,
    rw: Seq<char>,
    rb: Seq<char>,
    t: int,
    idx: int,
)
    requires
        4 <= t,
        t % 2 == 0,
        moves.len() == 2 * t,
    ensures
        forall|m: int|
            spec_is_ply_cell(t, m) ==> spec_game_cells(moves, rw, rb, t, idx)[m].value
                == CellContent::Text(moves[spec_cell_ply(t, m)]),
{
    let h = spec_block_a_height(t);
    let hb = spec_block_b_height(t);
    assert(h + hb == t);
    assert forall|m: int| spec_is_ply_cell(t, m) implies spec_game_cells(moves, rw, rb, t, idx)[m].value
        == CellContent::Text(moves[spec_cell_ply(t, m)]) by {
        lemma_ply_cell_content(moves, rw, rb, t, idx, m);
        assert(spec_cell_ply(t, m) < 2 * t);
    }
}

} // verus!
