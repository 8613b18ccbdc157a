//! Descriptions of the fixed cell styles of the report.
//!
//! A style is plain data: font, box borders and alignment. The writer that
//! owns a real workbook translates a `StyleSpec` into its own style object;
//! everything structural about a style is decided here.

use vstd::prelude::*;

use crate::cells::StyleKind;

verus! {

/// Thickness of one edge of a style's box border.
#[derive(Clone, Copy, Debug, PartialEq, Eq, Structural)]
pub enum BoxLine {
    NoLine,
    Thin,
    Medium,
}

/// A complete cell style. The report uses a single font family, so a font
/// is described by its size in points (0 keeps the writer's default size),
/// boldness and whether it uses the accent colour of the move numbers.
#[derive(Clone, Copy, Debug, PartialEq, Eq, Structural)]
pub struct StyleSpec {
    pub has_font: bool,
    pub font_size_pt: u32,
    pub font_bold: bool,
    pub font_accent: bool,
    pub border_top: BoxLine,
    pub border_left: BoxLine,
    pub border_right: BoxLine,
    pub border_bottom: BoxLine,
    pub align_center: bool,
}

/// A style that sets nothing.
pub open spec fn spec_plain_style() -> StyleSpec {
    StyleSpec {
        has_font: false,
        font_size_pt: 0,
        font_bold: false,
        font_accent: false,
        border_top: BoxLine::NoLine,
        border_left: BoxLine::NoLine,
        border_right: BoxLine::NoLine,
        border_bottom: BoxLine::NoLine,
        align_center: false,
    }
}

/// A bold 11 pt centred font with no borders: the title and header look.
pub open spec fn spec_header_style() -> StyleSpec {
    StyleSpec {
        has_font: true,
        font_size_pt: 11,
        font_bold: true,
        font_accent: false,
        border_top: BoxLine::NoLine,
        border_left: BoxLine::NoLine,
        border_right: BoxLine::NoLine,
        border_bottom: BoxLine::NoLine,
        align_center: true,
    }
}

/// The header look inside a box border of the given thickness.
pub open spec fn spec_boxed_header_style(line: BoxLine) -> StyleSpec {
    StyleSpec {
        border_top: line,
        border_left: line,
        border_right: line,
        border_bottom: line,
        ..spec_header_style()
    }
}

/// A default-size centred font in a thin box: player name cells.
pub open spec fn spec_student_name_style() -> StyleSpec {
    StyleSpec {
        has_font: true,
        font_size_pt: 0,
        font_bold: false,
        font_accent: false,
        border_top: BoxLine::Thin,
        border_left: BoxLine::Thin,
        border_right: BoxLine::Thin,
        border_bottom: BoxLine::Thin,
        align_center: true,
    }
}

/// A bare thin box: one ply of a game.
pub open spec fn spec_game_move_style() -> StyleSpec {
    StyleSpec {
        border_top: BoxLine::Thin,
        border_left: BoxLine::Thin,
        border_right: BoxLine::Thin,
        border_bottom: BoxLine::Thin,
        ..spec_plain_style()
    }
}

/// Accented bold 10 pt figure between medium side borders: a move number.
pub open spec fn spec_game_move_number_style() -> StyleSpec {
    StyleSpec {
        has_font: true,
        font_size_pt: 10,
        font_bold: true,
        font_accent: true,
        border_top: BoxLine::NoLine,
        border_left: BoxLine::Medium,
        border_right: BoxLine::Medium,
        border_bottom: BoxLine::NoLine,
        align_center: true,
    }
}

/// The move number column continued without a figure.
pub open spec fn spec_game_move_number_filler_style() -> StyleSpec {
    StyleSpec {
        has_font: false,
        font_size_pt: 0,
        font_bold: false,
        font_accent: false,
        border_top: BoxLine::NoLine,
        border_left: BoxLine::Medium,
        border_right: BoxLine::Medium,
        border_bottom: BoxLine::NoLine,
        align_center: true,
    }
}

/// A centred 10 pt font with no borders: the result footer.
pub open spec fn spec_game_result_style() -> StyleSpec {
    StyleSpec {
        has_font: true,
        font_size_pt: 10,
        font_bold: false,
        font_accent: false,
        border_top: BoxLine::NoLine,
        border_left: BoxLine::NoLine,
        border_right: BoxLine::NoLine,
        border_bottom: BoxLine::NoLine,
        align_center: true,
    }
}

/// The style behind each style name.
pub open spec fn spec_style_of(kind: StyleKind) -> StyleSpec {
    match kind {
        StyleKind::Title => spec_header_style(),
        StyleKind::Header => spec_header_style(),
        StyleKind::InfoTable => spec_boxed_header_style(BoxLine::Medium),
        StyleKind::GameInfoTable => spec_boxed_header_style(BoxLine::Thin),
        StyleKind::StudentName => spec_student_name_style(),
        StyleKind::GameMove => spec_game_move_style(),
        StyleKind::GameMoveNumber => spec_game_move_number_style(),
        StyleKind::GameMoveNumberFiller => spec_game_move_number_filler_style(),
        StyleKind::GameResult => spec_game_result_style(),
        StyleKind::Plain => spec_plain_style(),
    }
}

pub struct Styles {}

impl Styles {
    /// Bold title line over the whole sheet.
    pub fn title() -> (r: StyleSpec)
        ensures
            r == spec_style_of(StyleKind::Title),
    {
        Self::for_kind(StyleKind::Title)
    }

    /// Bold centred section header, visually the same as the title.
    pub fn header() -> (r: StyleSpec)
        ensures
            r == spec_style_of(StyleKind::Header),
    {
        Self::for_kind(StyleKind::Header)
    }

    /// The student info table: the header look in a medium box.
    pub fn info_table() -> (r: StyleSpec)
        ensures
            r == spec_style_of(StyleKind::InfoTable),
    {
        Self::for_kind(StyleKind::InfoTable)
    }

    /// The game info table: the header look in a thin box.
    pub fn game_info_table() -> (r: StyleSpec)
        ensures
            r == spec_style_of(StyleKind::GameInfoTable),
    {
        Self::for_kind(StyleKind::GameInfoTable)
    }

    /// Player name cell.
    pub fn student_name() -> (r: StyleSpec)
        ensures
            r == spec_style_of(StyleKind::StudentName),
    {
        Self::for_kind(StyleKind::StudentName)
    }

    /// One ply of a game.
    pub fn game_move() -> (r: StyleSpec)
        ensures
            r == spec_style_of(StyleKind::GameMove),
    {
        Self::for_kind(StyleKind::GameMove)
    }

    /// A move number cell.
    pub fn game_move_number() -> (r: StyleSpec)
        ensures
            r == spec_style_of(StyleKind::GameMoveNumber),
    {
        Self::for_kind(StyleKind::GameMoveNumber)
    }

    /// The move number column continued without a figure.
    pub fn game_move_number_filler() -> (r: StyleSpec)
        ensures
            r == spec_style_of(StyleKind::GameMoveNumberFiller),
    {
        Self::for_kind(StyleKind::GameMoveNumberFiller)
    }

    /// A result footer cell.
    pub fn game_result() -> (r: StyleSpec)
        ensures
            r == spec_style_of(StyleKind::GameResult),
    {
        Self::for_kind(StyleKind::GameResult)
    }

    /// The style behind a style name; `Plain` sets nothing.
    pub fn for_kind(kind: StyleKind) -> (r: StyleSpec)
        ensures
            r == spec_style_of(kind),
    {
        match kind {
            StyleKind::Title | StyleKind::Header => StyleSpec {
                has_font: true,
                font_size_pt: 11,
                font_bold: true,
                font_accent: false,
                border_top: BoxLine::NoLine,
                border_left: BoxLine::NoLine,
                border_right: BoxLine::NoLine,
                border_bottom: BoxLine::NoLine,
                align_center: true,
            },
            StyleKind::InfoTable => StyleSpec {
                has_font: true,
                font_size_pt: 11,
                font_bold: true,
                font_accent: false,
                border_top: BoxLine::Medium,
                border_left: BoxLine::Medium,
                border_right: BoxLine::Medium,
                border_bottom: BoxLine::Medium,
                align_center: true,
            },
            StyleKind::GameInfoTable => StyleSpec {
                has_font: true,
                font_size_pt: 11,
                font_bold: true,
                font_accent: false,
                border_top: BoxLine::Thin,
                border_left: BoxLine::Thin,
                border_right: BoxLine::Thin,
                border_bottom: BoxLine::Thin,
                align_center: true,
            },
            StyleKind::StudentName => StyleSpec {
                has_font: true,
                font_size_pt: 0,
                font_bold: false,
                font_accent: false,
                border_top: BoxLine::Thin,
                border_left: BoxLine::Thin,
                border_right: BoxLine::Thin,
                border_bottom: BoxLine::Thin,
                align_center: true,
            },
            StyleKind::GameMove => StyleSpec {
                has_font: false,
                font_size_pt: 0,
                font_bold: false,
                font_accent: false,
                border_top: BoxLine::Thin,
                border_left: BoxLine::Thin,
                border_right: BoxLine::Thin,
                border_bottom: BoxLine::Thin,
                align_center: false,
            },
            StyleKind::GameMoveNumber => StyleSpec {
                has_font: true,
                font_size_pt: 10,
                font_bold: true,
                font_accent: true,
                border_top: BoxLine::NoLine,
                border_left: BoxLine::Medium,
                border_right: BoxLine::Medium,
                border_bottom: BoxLine::NoLine,
                align_center: true,
            },
            StyleKind::GameMoveNumberFiller => StyleSpec {
                has_font: false,
                font_size_pt: 0,
                font_bold: false,
                font_accent: false,
                border_top: BoxLine::NoLine,
                border_left: BoxLine::Medium,
                border_right: BoxLine::Medium,
                border_bottom: BoxLine::NoLine,
                align_center: true,
            },
            StyleKind::GameResult => StyleSpec {
                has_font: true,
                font_size_pt: 10,
                font_bold: false,
                font_accent: false,
                border_top: BoxLine::NoLine,
                border_left: BoxLine::NoLine,
                border_right: BoxLine::NoLine,
                border_bottom: BoxLine::NoLine,
                align_center: true,
            },
            StyleKind::Plain => StyleSpec {
                has_font: false,
                font_size_pt: 0,
                font_bold: false,
                font_accent: false,
                border_top: BoxLine::NoLine,
                border_left: BoxLine::NoLine,
                border_right: BoxLine::NoLine,
                border_bottom: BoxLine::NoLine,
                align_center: false,
            },
        }
    }
}

} // verus!
