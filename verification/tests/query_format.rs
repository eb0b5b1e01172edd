//! The wire format of query results: pipe-delimited, error-as-data, and the
//! documented lossiness for multi-row results.

use pgbridge::query::{
    render_outcome, render_value, serialize_rows, split_on_pipe, Cell, CellValue, QueryOutcome, Row,
};

fn text_cell(name: &str, value: &str) -> Cell {
    Cell { name: name.to_string(), value: CellValue::Text(value.to_string()) }
}

#[test]
fn null_renders_as_the_literal_null() {
    assert_eq!(render_value(&CellValue::Null), "NULL");
    assert_eq!(render_value(&CellValue::Text("0".to_string())), "0");
}

#[test]
fn single_cell_serializes_as_name_pipe_value() {
    let rows = vec![Row { cells: vec![text_cell("id", "42")] }];
    assert_eq!(serialize_rows(&rows), "id|42");
}

#[test]
fn null_cell_on_the_wire() {
    let rows = vec![Row { cells: vec![Cell { name: "done".to_string(), value: CellValue::Null }] }];
    assert_eq!(serialize_rows(&rows), "done|NULL");
}

#[test]
fn cells_and_rows_concatenate_without_row_delimiter() {
    let rows = vec![
        Row { cells: vec![text_cell("a", "1"), text_cell("b", "2")] },
        Row { cells: vec![text_cell("c", "3")] },
    ];
    assert_eq!(serialize_rows(&rows), "a|1b|2c|3");
}

#[test]
fn empty_result_serializes_to_the_empty_string() {
    let rows: Vec<Row> = vec![];
    assert_eq!(serialize_rows(&rows), "");
}

#[test]
fn single_row_result_round_trips() {
    // One row, one column: splitting the wire string on '|' recovers the
    // column name and the displayed value losslessly.
    let original = Row { cells: vec![text_cell("id", "42")] };
    let wire = serialize_rows(&vec![original.clone()]);
    let pieces = split_on_pipe(wire.as_str());
    assert_eq!(pieces, vec!["id".to_string(), "42".to_string()]);
    let rebuilt = Row { cells: vec![text_cell(pieces[0].as_str(), pieces[1].as_str())] };
    assert_eq!(rebuilt, original);
}

#[test]
fn multi_row_results_are_not_uniquely_invertible() {
    // Two distinct result sets share one wire string: the format is lossy
    // for more than one row, and no round-trip may be attempted there.
    let two_rows =
        vec![Row { cells: vec![text_cell("a", "1")] }, Row { cells: vec![text_cell("b", "2")] }];
    let one_row = vec![Row { cells: vec![text_cell("a", "1b|2")] }];
    assert_eq!(serialize_rows(&two_rows), "a|1b|2");
    assert_eq!(serialize_rows(&two_rows), serialize_rows(&one_row));
    assert_ne!(two_rows, one_row);
}

#[test]
fn erroring_statement_returns_its_description() {
    // Error-as-data: the call returns the description as the payload and
    // never raises.
    let outcome =
        QueryOutcome::Failure("error returned from database: relation \"x\" does not exist".to_string());
    let rendered = render_outcome(&outcome);
    assert_eq!(rendered, "error returned from database: relation \"x\" does not exist");
}

#[test]
fn successful_statement_returns_the_serialized_rows() {
    let outcome = QueryOutcome::Rows(vec![Row { cells: vec![text_cell("n", "7")] }]);
    assert_eq!(render_outcome(&outcome), "n|7");
}

#[test]
fn split_of_empty_string_is_one_empty_piece() {
    assert_eq!(split_on_pipe(""), vec!["".to_string()]);
}

#[test]
fn split_keeps_leading_and_trailing_empty_pieces() {
    assert_eq!(split_on_pipe("|x|"), vec!["".to_string(), "x".to_string(), "".to_string()]);
    assert_eq!(split_on_pipe("a||b"), vec!["a".to_string(), "".to_string(), "b".to_string()]);
}

#[test]
fn split_matches_the_standard_splitter() {
    let wire = "name|value|more";
    let ours = split_on_pipe(wire);
    let std_pieces: Vec<String> = wire.split('|').map(|p| p.to_string()).collect();
    assert_eq!(ours, std_pieces);
}
