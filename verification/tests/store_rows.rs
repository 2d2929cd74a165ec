use tyr::store::QueryDataByCol;
use tyr::store::Rows;
use tyr::store::TableMap;

fn text_cell(column_name: &str, data: &str) -> QueryDataByCol {
    QueryDataByCol::new(
        column_name.to_string(),
        "VARCHAR2".to_string(),
        Some(data.to_string()),
    )
}

fn null_cell(column_name: &str) -> QueryDataByCol {
    QueryDataByCol::new(column_name.to_string(), "VARCHAR2".to_string(), None)
}

#[test]
fn rows_iterate_in_index_order() {
    let mut rows = Rows::new();
    rows.insert(5, vec![text_cell("A", "five")]);
    rows.insert(2, vec![text_cell("A", "two")]);
    rows.insert(9, vec![text_cell("A", "nine")]);
    assert_eq!(rows.len(), 3);
    assert_eq!(rows.row_at(0).0, 2);
    assert_eq!(rows.row_at(1).0, 5);
    assert_eq!(rows.row_at(2).0, 9);
}

#[test]
fn inserting_the_same_index_replaces_the_row() {
    let mut rows = Rows::new();
    rows.insert(1, vec![text_cell("A", "first")]);
    rows.insert(1, vec![text_cell("A", "second")]);
    assert_eq!(rows.len(), 1);
    let (idx, cells) = rows.row_at(0);
    assert_eq!(idx, 1);
    assert_eq!(cells[0].data().as_deref(), Some("second"));
    assert_eq!(cells[0].column_name().as_str(), "A");
    assert_eq!(cells[0].native_type().as_str(), "VARCHAR2");
}

#[test]
fn width_accumulator_takes_the_maximum() {
    let mut rows = Rows::new();
    rows.insert(0, vec![text_cell("A", "ab"), text_cell("B", "abcd")]);
    rows.insert(1, vec![text_cell("A", "abcdef"), text_cell("B", "a")]);
    assert_eq!(rows.max_width(0), 6);
    assert_eq!(rows.max_width(1), 4);
    assert_eq!(rows.max_width(7), 0);
}

#[test]
fn width_accumulator_is_order_independent() {
    let mut forward = Rows::new();
    forward.insert(0, vec![text_cell("A", "ab")]);
    forward.insert(1, vec![text_cell("A", "abcdef")]);
    let mut backward = Rows::new();
    backward.insert(1, vec![text_cell("A", "abcdef")]);
    backward.insert(0, vec![text_cell("A", "ab")]);
    assert_eq!(forward.max_width(0), backward.max_width(0));
    assert_eq!(forward.max_width(0), 6);
}

#[test]
fn width_accumulator_counts_every_cell_seen() {
    let mut rows = Rows::new();
    rows.insert(3, vec![text_cell("A", "widest of all")]);
    rows.insert(3, vec![text_cell("A", "slim")]);
    assert_eq!(rows.len(), 1);
    assert_eq!(rows.max_width(0), "widest of all".len());
}

#[test]
fn null_cells_observe_the_null_marker_width() {
    let mut rows = Rows::new();
    rows.insert(0, vec![null_cell("A")]);
    assert_eq!(rows.max_width(0), "(null)".len());
}

#[test]
fn observe_grows_and_raises() {
    let mut rows = Rows::new();
    rows.observe(2, 7);
    assert_eq!(rows.max_width(0), 0);
    assert_eq!(rows.max_width(1), 0);
    assert_eq!(rows.max_width(2), 7);
    rows.observe(2, 3);
    assert_eq!(rows.max_width(2), 7);
    rows.observe(2, 9);
    assert_eq!(rows.max_width(2), 9);
}

#[test]
fn display_text_uses_the_null_marker() {
    assert_eq!(text_cell("A", "x").display_text(), "x");
    assert_eq!(null_cell("A").display_text(), "(null)");
}

#[test]
fn table_map_keeps_list_order_and_replaces_duplicates() {
    let mut tables = TableMap::new();
    tables.add_table("ZULU".to_string());
    tables.add_table("ALPHA".to_string());
    assert_eq!(tables.len(), 2);
    assert_eq!(tables.name_at(0).as_str(), "ZULU");
    assert_eq!(tables.name_at(1).as_str(), "ALPHA");
    tables.insert_row(0, 0, vec![text_cell("A", "x")]);
    assert_eq!(tables.rows_at(0).len(), 1);
    tables.add_table("ZULU".to_string());
    assert_eq!(tables.len(), 2);
    assert_eq!(tables.rows_at(0).len(), 0);
}
