use chess_report::lichess::game_url_to_export_url;

#[test]
fn long_game_id_loses_its_viewer_suffix() {
    let r = game_url_to_export_url("https://lichess.org/abcd1234wxyz");
    assert_eq!(
        r.as_deref(),
        Some("https://lichess.org/game/export/abcd1234?evals=0&clocks=0")
    );
}

#[test]
fn short_game_id_passes_through_unchanged() {
    let r = game_url_to_export_url("https://lichess.org/abcd1234");
    assert_eq!(
        r.as_deref(),
        Some("https://lichess.org/game/export/abcd1234?evals=0&clocks=0")
    );
    let r = game_url_to_export_url("http://example.com/xyz");
    assert_eq!(
        r.as_deref(),
        Some("http://example.com/game/export/xyz?evals=0&clocks=0")
    );
}

#[test]
fn only_the_first_path_segment_is_the_game_id() {
    let r = game_url_to_export_url("https://lichess.org/abcd1234wxyz/white");
    assert_eq!(
        r.as_deref(),
        Some("https://lichess.org/game/export/abcd1234?evals=0&clocks=0")
    );
}

#[test]
fn thirteen_character_id_is_not_truncated() {
    let r = game_url_to_export_url("https://lichess.org/abcd1234wxyz9");
    assert_eq!(
        r.as_deref(),
        Some("https://lichess.org/game/export/abcd1234wxyz9?evals=0&clocks=0")
    );
}

#[test]
fn url_without_a_domain_host_is_rejected() {
    assert_eq!(game_url_to_export_url("data:text/plain,hello"), None);
    assert_eq!(game_url_to_export_url("https://127.0.0.1/abcd1234"), None);
}

#[test]
fn unparseable_url_is_rejected() {
    assert_eq!(game_url_to_export_url("not a url at all"), None);
    assert_eq!(game_url_to_export_url(""), None);
}
