//! The cell model of the report sheet.
//!
//! Every piece of the report is described as plain data: a cell holds a
//! column, a row, a value and the name of a style; merge ranges and border
//! strokes are separate records. A writer that owns a real workbook only
//! has to replay these records.

use vstd::prelude::*;

verus! {

/// Name of one of the fixed cell styles of the report.
#[derive(Clone, Copy, Debug, PartialEq, Eq, Structural)]
pub enum StyleKind {
    /// Bold, centred sheet title.
    Title,
    /// Bold, centred section header.
    Header,
    /// Bold, centred, medium box border: the student info table.
    InfoTable,
    /// Bold, centred, thin box border: the game info table.
    GameInfoTable,
    /// Centred, thin box border: player name cells.
    StudentName,
    /// Thin box border: one ply of a game.
    GameMove,
    /// Accented bold number in a medium-bordered column.
    GameMoveNumber,
    /// Medium-bordered column cell without a number.
    GameMoveNumberFiller,
    /// Centred small font: the result footer.
    GameResult,
    /// No style is applied.
    Plain,
}

/// What a cell displays.
pub enum CellValue {
    /// A numeric cell, as the move numbers are.
    Number(u32),
    /// A text cell.
    Text(String),
    /// No value: the cell exists only to carry its style.
    Empty,
}

/// Mathematical content of a cell value.
pub enum CellContent {
    Number(int),
    Text(Seq<char>),
    Empty,
}

impl View for CellValue {
    type V = CellContent;

    open spec fn view(&self) -> CellContent {
        match self {
            CellValue::Number(n) => CellContent::Number(*n as int),
            CellValue::Text(s) => CellContent::Text(s@),
            CellValue::Empty => CellContent::Empty,
        }
    }
}

impl DeepView for CellValue {
    type V = CellContent;

    open spec fn deep_view(&self) -> CellContent {
        self.view()
    }
}

/// One cell of the sheet: 1-based column and row, value and style.
pub struct Cell {
    pub col: u32,
    pub row: u32,
    pub value: CellValue,
    pub style: StyleKind,
}

/// Mathematical content of a cell.
pub struct CellModel {
    pub col: int,
    pub row: int,
    pub value: CellContent,
    pub style: StyleKind,
}

impl View for Cell {
    type V = CellModel;

    open spec fn view(&self) -> CellModel {
        CellModel {
            col: self.col as int,
            row: self.row as int,
            value: self.value@,
            style: self.style,
        }
    }
}

impl DeepView for Cell {
    type V = CellModel;

    open spec fn deep_view(&self) -> CellModel {
        self.view()
    }
}

/// A rectangular range of cells merged into one, both bounds inclusive.
#[derive(Clone, Copy, Debug, PartialEq, Eq, Structural)]
pub struct MergeRange {
    pub start_col: u32,
    pub start_row: u32,
    pub end_col: u32,
    pub end_row: u32,
}

/// Mathematical content of a merge range.
pub struct MergeModel {
    pub start_col: int,
    pub start_row: int,
    pub end_col: int,
    pub end_row: int,
}

impl View for MergeRange {
    type V = MergeModel;

    open spec fn view(&self) -> MergeModel {
        MergeModel {
            start_col: self.start_col as int,
            start_row: self.start_row as int,
            end_col: self.end_col as int,
            end_row: self.end_row as int,
        }
    }
}

impl DeepView for MergeRange {
    type V = MergeModel;

    open spec fn deep_view(&self) -> MergeModel {
        self.view()
    }
}

/// The edge of a cell that a border stroke is drawn on.
#[derive(Clone, Copy, Debug, PartialEq, Eq, Structural)]
pub enum BorderEdge {
    Top,
    Right,
}

/// Thickness of a border stroke.
#[derive(Clone, Copy, Debug, PartialEq, Eq, Structural)]
pub enum BorderWeight {
    Thin,
    Medium,
}

/// One border stroke applied to a single cell edge, on top of whatever the
/// cell's style already draws.
#[derive(Clone, Copy, Debug, PartialEq, Eq, Structural)]
pub struct BorderStroke {
    pub col: u32,
    pub row: u32,
    pub edge: BorderEdge,
    pub weight: BorderWeight,
}

/// Mathematical content of a border stroke.
pub struct BorderModel {
    pub col: int,
    pub row: int,
    pub edge: BorderEdge,
    pub weight: BorderWeight,
}

impl View for BorderStroke {
    type V = BorderModel;

    open spec fn view(&self) -> BorderModel {
        BorderModel {
            col: self.col as int,
            row: self.row as int,
            edge: self.edge,
            weight: self.weight,
        }
    }
}

impl DeepView for BorderStroke {
    type V = BorderModel;

    open spec fn deep_view(&self) -> BorderModel {
        self.view()
    }
}

/// Everything a writer needs to reproduce the report sheet.
pub struct SheetLayout {
    pub cells: Vec<Cell>,
    pub merges: Vec<MergeRange>,
    pub borders: Vec<BorderStroke>,
}

} // verus!
