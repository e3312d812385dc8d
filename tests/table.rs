use stream_regression::{
    cell, cells_from_rows, load_table, row_cells, strip_commas, LoadError, StreamCells,
};

fn strings(cells: &[&str]) -> Vec<String> {
    cells.iter().map(|c| c.to_string()).collect()
}

fn number(text: &str) -> f64 {
    text.parse().unwrap_or(0.0)
}

fn load(text: &str) -> Vec<StreamCells> {
    match load_table(text.as_bytes()) {
        Ok(cells) => cells,
        Err(e) => panic!("table refused: {:?}", e),
    }
}

#[test]
fn strip_commas_removes_separators() {
    assert_eq!(strip_commas("1,234"), "1234");
    assert_eq!(strip_commas("1,234,567"), "1234567");
    assert_eq!(strip_commas(",,"), "");
    assert_eq!(strip_commas(""), "");
    assert_eq!(strip_commas("12.5"), "12.5");
    assert_eq!(strip_commas("n/a"), "n/a");
}

#[test]
fn grouped_numeral_reads_as_plain_numeral() {
    for (grouped, plain) in [("1,234", "1234"), ("1,234,567", "1234567"), ("12", "12")] {
        let row = strings(&["x", grouped]);
        let plain_row = strings(&["x", plain]);
        assert_eq!(cell(&row, 1), cell(&plain_row, 1));
        assert_eq!(number(&cell(&row, 1)), number(plain));
    }
    assert_eq!(number(&cell(&strings(&["x", "1,234"]), 1)), 1234.0);
}

#[test]
fn missing_cell_is_empty_and_reads_as_zero() {
    let row = strings(&["Artist", "1000"]);
    assert_eq!(cell(&row, 3), "");
    assert_eq!(cell(&row, 5), "");
    assert_eq!(number(&cell(&row, 5)), 0.0);
    let c = row_cells(&row);
    assert_eq!(c.total_streams, "1000");
    assert_eq!(c.solo_streams, "");
    assert_eq!(c.lead_streams, "");
    assert_eq!(c.feature_streams, "");
}

#[test]
fn non_numeric_cell_reads_as_zero() {
    let row = strings(&["Artist", "lots", "", "n/a", "", "1,2x"]);
    let c = row_cells(&row);
    assert_eq!(c.total_streams, "lots");
    assert_eq!(c.feature_streams, "12x");
    assert_eq!(number(&c.total_streams), 0.0);
    assert_eq!(number(&c.solo_streams), 0.0);
    assert_eq!(number(&c.lead_streams), 0.0);
    assert_eq!(number(&c.feature_streams), 0.0);
}

#[test]
fn row_cells_picks_fixed_columns() {
    let row = strings(&["A", "10", "x", "3", "4", "5"]);
    let c = row_cells(&row);
    assert_eq!(c.total_streams, "10");
    assert_eq!(c.solo_streams, "3");
    assert_eq!(c.lead_streams, "4");
    assert_eq!(c.feature_streams, "5");
}

#[test]
fn cells_from_rows_keeps_count_and_order() {
    let rows = vec![
        strings(&["A", "1", "", "2", "3", "4"]),
        strings(&["B", "5", "", "6", "7", "8"]),
        strings(&["C", "9", "", "10", "11", "12"]),
    ];
    let cells = cells_from_rows(&rows);
    assert_eq!(cells.len(), 3);
    let totals: Vec<&str> = cells.iter().map(|c| c.total_streams.as_str()).collect();
    assert_eq!(totals, vec!["1", "5", "9"]);
    assert!(cells_from_rows(&Vec::new()).is_empty());
}

#[test]
fn load_keeps_row_count_and_order() {
    let text = "name,total,x,solo,lead,feature\n\
                A,\"1,000\",,100,200,300\n\
                B,2000,,400,500,600\n\
                C,3000,,700,800,900\n";
    let cells = load(text);
    assert_eq!(cells.len(), 3);
    assert_eq!(cells[0].total_streams, "1000");
    assert_eq!(cells[1].total_streams, "2000");
    assert_eq!(cells[2].total_streams, "3000");
    assert_eq!(cells[2].feature_streams, "900");
}

#[test]
fn load_header_only_gives_no_records() {
    assert!(load("name,total,x,solo,lead,feature\n").is_empty());
    assert!(load("").is_empty());
}

#[test]
fn load_rejects_row_of_wrong_length() {
    let text = "name,total,x,solo,lead,feature\nA,1,2,3,4,5\nB,1,2\n";
    assert!(matches!(load_table(text.as_bytes()), Err(LoadError::Malformed(_))));
}

#[test]
fn load_rejects_invalid_text() {
    let bytes: Vec<u8> = b"name,total\nA,\xff\xfe\n".to_vec();
    assert!(matches!(load_table(&bytes), Err(LoadError::Malformed(_))));
}

#[test]
fn end_to_end_rows_with_five_columns() {
    let text = "name,total,solo,lead,feature\n\
                Artist1,1000,500,300,200\n\
                Artist2,2000,800,600,400\n";
    let cells = load(text);
    assert_eq!(cells.len(), 2);
    assert_eq!(number(&cells[0].total_streams), 1000.0);
    assert_eq!(number(&cells[0].solo_streams), 300.0);
    assert_eq!(number(&cells[0].lead_streams), 200.0);
    assert_eq!(number(&cells[0].feature_streams), 0.0);
    assert_eq!(number(&cells[1].total_streams), 2000.0);
    assert_eq!(number(&cells[1].solo_streams), 600.0);
    assert_eq!(number(&cells[1].lead_streams), 400.0);
    assert_eq!(number(&cells[1].feature_streams), 0.0);
}

#[test]
fn end_to_end_records_at_fixed_columns() {
    let text = "name,total,other,solo,lead,feature\n\
                Artist1,1000,-,500,300,200\n\
                Artist2,2000,-,800,600,400\n";
    let cells = load(text);
    let records: Vec<(f64, f64, f64, f64)> = cells
        .iter()
        .map(|c| {
            (
                number(&c.total_streams),
                number(&c.solo_streams),
                number(&c.lead_streams),
                number(&c.feature_streams),
            )
        })
        .collect();
    assert_eq!(records, vec![(1000.0, 500.0, 300.0, 200.0), (2000.0, 800.0, 600.0, 400.0)]);
}
