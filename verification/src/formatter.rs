//! A stateless front for turning one request and its two fetched games
//! into the complete sheet layout.

use vstd::prelude::*;

use crate::cells::SheetLayout;
use crate::data::Data;
use crate::grid::LayoutError;
use crate::grid::spec_game_borders;
use crate::grid::spec_game_cells;
use crate::grid::spec_has_dash;
use crate::grid::spec_result_black;
use crate::grid::spec_result_white;
use crate::pgn::GameRecord;
use crate::report::ReportDate;
use crate::report::assemble_sheet;
use crate::report::spec_report_merges;
use crate::report::spec_static_borders;
use crate::report::spec_static_cells;
use crate::report::spec_valid_date;
use crate::utils::spec_row_count;

verus! {

/// A report formatter. It keeps no state: every call lays out one sheet
/// from the values it is given.
pub struct Formatter {}

impl Formatter {
    pub fn new() -> Formatter {
        Formatter {  }
    }

    /// Lays out the whole report sheet for one request and its two fetched
    /// games. Fails exactly when a record's result string cannot be split
    /// into two scores.
    pub fn format_data(
        &self,
        data: &Data,
        generation_date: &ReportDate,
        white: &GameRecord,
        black: &GameRecord,
    ) -> (r: Result<SheetLayout, LayoutError>)
        requires
            spec_valid_date(*generation_date),
            white@.moves.len() <= 1_000_000_000,
            black@.moves.len() <= 1_000_000_000,
        ensures
            match r {
                Ok(l) => {
                    let t = spec_row_count(white@.moves.len(), black@.moves.len()) as int;
                    &&& spec_has_dash(white@.result)
                    &&& spec_has_dash(black@.result)
                    &&& l.cells.deep_view() == spec_static_cells(*data, *generation_date)
                        + spec_game_cells(
                        white@.moves,
                        spec_result_white(white@.result),
                        spec_result_black(white@.result),
                        t,
                        0,
                    ) + spec_game_cells(
                        black@.moves,
                        spec_result_white(black@.result),
                        spec_result_black(black@.result),
                        t,
                        1,
                    )
                    &&& l.merges.deep_view() == spec_report_merges()
                    &&& l.borders.deep_view() == spec_static_borders() + spec_game_borders(t, 0)
                        + spec_game_borders(t, 1)
                },
                Err(e) => e == LayoutError::MalformedResult && !(spec_has_dash(
                    white@.result,
                ) && spec_has_dash(black@.result)),
            },
    {
        assemble_sheet(data, generation_date, white, black)
    }
}

} // verus!
