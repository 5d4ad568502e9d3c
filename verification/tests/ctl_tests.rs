use eggchan::ctl::{board_table, choose_database_url, decimal_text};
use eggchan::models::Board;

#[test]
fn url_from_arguments_wins() {
    assert_eq!(
        choose_database_url(Some("postgres://a".to_string()), Some("postgres://b".to_string())),
        Some("postgres://a".to_string())
    );
    assert_eq!(choose_database_url(None, Some("postgres://b".to_string())), Some("postgres://b".to_string()));
    assert_eq!(choose_database_url(None, None), None);
}

#[test]
fn decimal_text_matches_to_string() {
    for n in [0, 7, 10, -1, 12345, -987, i32::MAX, i32::MIN] {
        assert_eq!(decimal_text(n), n.to_string());
    }
}

#[test]
fn board_table_has_header_and_rows() {
    let boards = vec![
        Board { id: 1, name: "b".to_string(), description: Some("Random".to_string()), category: None },
        Board { id: 22, name: "g".to_string(), description: None, category: Some(3) },
    ];
    let rows = board_table(&boards);
    assert_eq!(rows, vec![
        vec!["ID".to_string(), "Name".to_string(), "Description".to_string()],
        vec!["1".to_string(), "b".to_string(), "Random".to_string()],
        vec!["22".to_string(), "g".to_string(), "".to_string()],
    ]);
}
