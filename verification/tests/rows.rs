use chess_report::utils::calc_row_count;

#[test]
fn row_count_is_floored_at_sixty() {
    assert_eq!(calc_row_count(0, 0), 60);
    assert_eq!(calc_row_count(1, 1), 60);
    assert_eq!(calc_row_count(40, 38), 60);
    assert_eq!(calc_row_count(120, 119), 60);
}

#[test]
fn row_count_is_always_a_round_multiple_of_ten() {
    let samples = [
        (0usize, 0usize),
        (7, 3),
        (118, 64),
        (121, 200),
        (122, 0),
        (1000, 999),
        (131, 131),
    ];
    for (a, b) in samples {
        let r = calc_row_count(a, b);
        assert_eq!(r % 10, 0);
        assert!(r >= 60);
    }
}

#[test]
fn row_count_follows_the_longer_game() {
    // 131 plies give 65 full pairs, snapped up to the next multiple of ten.
    assert_eq!(calc_row_count(131, 131), 70);
    // 200 plies give exactly 100 pairs, already a multiple of ten.
    assert_eq!(calc_row_count(200, 200), 100);
    // the longer game drives the height whichever side it is on
    assert_eq!(calc_row_count(200, 10), 100);
    assert_eq!(calc_row_count(10, 200), 100);
}

#[test]
fn row_count_example_from_two_uneven_games() {
    // 118 plies make 59 pairs and 64 plies make 32 pairs; the floor of 60
    // wins and is already round.
    assert_eq!(calc_row_count(118, 64), 60);
}
