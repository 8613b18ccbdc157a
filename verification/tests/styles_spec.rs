use chess_report::cells::StyleKind;
use chess_report::styles::BoxLine;
use chess_report::styles::Styles;

#[test]
fn title_and_header_share_the_bold_centred_look() {
    let t = Styles::title();
    let h = Styles::header();
    assert_eq!(t, h);
    assert!(t.has_font && t.font_bold && t.align_center);
    assert_eq!(t.font_size_pt, 11);
    assert_eq!(t.border_top, BoxLine::NoLine);
}

#[test]
fn info_tables_differ_only_in_border_thickness() {
    let info = Styles::info_table();
    let game = Styles::game_info_table();
    assert_eq!(info.border_top, BoxLine::Medium);
    assert_eq!(info.border_bottom, BoxLine::Medium);
    assert_eq!(game.border_top, BoxLine::Thin);
    assert_eq!(game.border_bottom, BoxLine::Thin);
    assert!(info.font_bold && game.font_bold);
}

#[test]
fn move_number_style_is_accented_between_medium_side_borders() {
    let s = Styles::game_move_number();
    assert!(s.has_font && s.font_bold && s.font_accent && s.align_center);
    assert_eq!(s.font_size_pt, 10);
    assert_eq!(s.border_left, BoxLine::Medium);
    assert_eq!(s.border_right, BoxLine::Medium);
    assert_eq!(s.border_top, BoxLine::NoLine);
    let filler = Styles::game_move_number_filler();
    assert!(!filler.has_font);
    assert_eq!(filler.border_left, BoxLine::Medium);
}

#[test]
fn each_style_name_maps_to_its_style() {
    assert_eq!(Styles::for_kind(StyleKind::Title), Styles::title());
    assert_eq!(Styles::for_kind(StyleKind::GameMove), Styles::game_move());
    assert_eq!(Styles::for_kind(StyleKind::GameResult), Styles::game_result());
    assert_eq!(Styles::for_kind(StyleKind::StudentName), Styles::student_name());
    let plain = Styles::for_kind(StyleKind::Plain);
    assert!(!plain.has_font && !plain.align_center);
    assert_eq!(plain.border_left, BoxLine::NoLine);
}
