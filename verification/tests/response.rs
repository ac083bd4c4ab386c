use meteomatics::connector_error::DecodeError;
use meteomatics::connector_response::ResponseBody;

fn table(headers: &[&str]) -> ResponseBody {
    let mut body = ResponseBody::new();
    for header in headers {
        body.add_header(header.to_string());
    }
    body
}

fn row(fields: &[&str]) -> Vec<String> {
    fields.iter().map(|field| field.to_string()).collect()
}

#[test]
fn new_table_is_empty() {
    let body = ResponseBody::new();
    assert!(body.response_headers.is_empty());
    assert!(body.response_records.is_empty());
}

#[test]
fn headers_are_kept_in_order() {
    let body = table(&["validdate", "t_2m:C", "precip_1h:mm"]);
    assert_eq!(body.response_headers, row(&["validdate", "t_2m:C", "precip_1h:mm"]));
    assert!(body.response_records.is_empty());
}

#[test]
fn decodes_one_record() {
    let mut body = table(&["validdate", "a", "b"]);
    let outcome = body.populate_records("header;cols\n2020-01-01T00:00:00Z;1.0;2.0\n", 2);
    assert_eq!(outcome, Ok(()));
    assert_eq!(
        body.response_records,
        vec![("2020-01-01T00:00:00Z".to_string(), row(&["1.0", "2.0"]))]
    );
    assert_eq!(body.response_headers, row(&["validdate", "a", "b"]));
}

#[test]
fn decodes_rows_in_order() {
    let mut body = table(&["validdate", "t_2m:C"]);
    let text = "validdate;t_2m:C\n2020-01-01T00:00:00Z;1.5\n2020-01-01T01:00:00Z;-0.3\n2020-01-01T02:00:00Z;\n";
    assert_eq!(body.populate_records(text, 1), Ok(()));
    assert_eq!(
        body.response_records,
        vec![
            ("2020-01-01T00:00:00Z".to_string(), row(&["1.5"])),
            ("2020-01-01T01:00:00Z".to_string(), row(&["-0.3"])),
            ("2020-01-01T02:00:00Z".to_string(), row(&[""])),
        ]
    );
}

#[test]
fn short_row_fails_and_leaves_no_record() {
    let mut body = table(&["validdate", "a", "b"]);
    let text = "validdate;a;b\n2020-01-01T00:00:00Z;1.0;2.0\n2020-01-01T01:00:00Z;3.0\n";
    let outcome = body.populate_records(text, 2);
    assert_eq!(outcome, Err(DecodeError::RowWidth { row: 1, found: 2, wanted: 2 }));
    assert!(body.response_records.is_empty());
    assert_eq!(body.response_headers, row(&["validdate", "a", "b"]));
}

#[test]
fn long_row_fails_and_names_the_first() {
    let mut body = table(&["validdate", "a"]);
    let text = "validdate;a\n2020;1;2;3\n2021;1\n2022\n";
    let outcome = body.populate_records(text, 1);
    assert_eq!(outcome, Err(DecodeError::RowWidth { row: 0, found: 4, wanted: 1 }));
    assert!(body.response_records.is_empty());
}

#[test]
fn empty_body_gives_no_record() {
    let mut body = table(&["validdate", "a", "b"]);
    assert_eq!(body.populate_records("", 2), Ok(()));
    assert!(body.response_records.is_empty());
    assert_eq!(body.response_headers, row(&["validdate", "a", "b"]));
}

#[test]
fn header_row_alone_gives_no_record() {
    let mut body = table(&["validdate", "a"]);
    assert_eq!(body.populate_records("validdate;a\n", 1), Ok(()));
    assert!(body.response_records.is_empty());
}

#[test]
fn no_parameters_means_rows_of_a_timestamp() {
    let mut body = table(&["validdate"]);
    assert_eq!(body.populate_records("validdate\n2020\n2021\n", 0), Ok(()));
    assert_eq!(
        body.response_records,
        vec![("2020".to_string(), row(&[])), ("2021".to_string(), row(&[]))]
    );
}

#[test]
fn quoted_fields_keep_their_delimiters() {
    let mut body = table(&["validdate", "a"]);
    assert_eq!(body.populate_records("h;a\n\"20;20\";\"x\"\"y\"\n", 1), Ok(()));
    assert_eq!(body.response_records, vec![("20;20".to_string(), row(&["x\"y"]))]);
}

#[test]
fn commas_do_not_delimit() {
    let mut body = table(&["validdate", "a"]);
    assert_eq!(body.populate_records("h,a\n2020,1;2,3\n", 1), Ok(()));
    assert_eq!(body.response_records, vec![("2020,1".to_string(), row(&["2,3"]))]);
}

#[test]
fn fill_records_takes_rows_as_they_are() {
    let mut body = table(&["validdate", "a", "b"]);
    let rows = vec![row(&["t0", "1", "2"]), row(&["t1", "3", "4"])];
    assert_eq!(body.fill_records(&rows, 2), Ok(()));
    assert_eq!(
        body.response_records,
        vec![
            ("t0".to_string(), row(&["1", "2"])),
            ("t1".to_string(), row(&["3", "4"])),
        ]
    );
}

#[test]
fn fill_records_adds_after_what_is_there() {
    let mut body = table(&["validdate", "a"]);
    assert_eq!(body.fill_records(&vec![row(&["t0", "1"])], 1), Ok(()));
    assert_eq!(body.fill_records(&vec![row(&["t1", "2"])], 1), Ok(()));
    assert_eq!(
        body.response_records,
        vec![("t0".to_string(), row(&["1"])), ("t1".to_string(), row(&["2"]))]
    );
}

#[test]
fn fill_records_is_all_or_nothing() {
    let mut body = table(&["validdate", "a"]);
    assert_eq!(body.fill_records(&vec![row(&["t0", "1"])], 1), Ok(()));
    let before = body.clone();
    let rows = vec![row(&["t1", "2"]), row(&["t2"]), row(&[])];
    assert_eq!(
        body.fill_records(&rows, 1),
        Err(DecodeError::RowWidth { row: 1, found: 1, wanted: 1 })
    );
    assert_eq!(body, before);
}

#[test]
fn fill_records_rejects_a_row_without_fields() {
    let mut body = ResponseBody::new();
    assert_eq!(
        body.fill_records(&vec![row(&[])], 0),
        Err(DecodeError::RowWidth { row: 0, found: 0, wanted: 0 })
    );
    assert_eq!(
        body.fill_records(&vec![row(&["t0"])], usize::MAX),
        Err(DecodeError::RowWidth { row: 0, found: 1, wanted: usize::MAX })
    );
    assert!(body.response_records.is_empty());
}

#[test]
fn fill_records_with_no_rows_changes_nothing() {
    let mut body = table(&["validdate"]);
    assert_eq!(body.fill_records(&Vec::new(), 3), Ok(()));
    assert_eq!(body, table(&["validdate"]));
}
