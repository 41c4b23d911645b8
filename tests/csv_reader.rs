use rusty_csv_viewer::csv::reader::{
    finalize_field, has_outer_quotes, parse_csv, validate_field, CsvData, CsvQuoteValidationError,
    CsvValidationError,
};

#[test]
fn test_csvdata_cols_rows_len() {
    let mut data = vec![String::from("a"), String::from("b"), String::from("c")];
    let mut c = CsvData::new();
    c.set_dims(3, 1);
    c.set_data(&mut data);

    assert_eq!(c.columns(), 3);
    assert_eq!(c.rows(), 1);
    assert_eq!(c.len(), 3);
    assert_eq!(c.has_headers(), false);
    assert_eq!(c.has_data(), true);
}

#[test]
fn reader_test_validate_field_none() {
    let s = String::from("abc");
    assert!(validate_field(&s).is_ok())
}

#[test]
fn reader_test_validate_field_outer_quotes_with_contents() {
    let s = String::from("\"abc\"");
    assert!(validate_field(&s).is_ok())
}

#[test]
fn reader_test_validate_field_outer_quotes_empty() {
    let s = String::from("\"\"");
    assert!(validate_field(&s).is_ok())
}

#[test]
fn reader_test_validate_field_invalid_escaped_quotes() {
    let s = String::from("abc\"\"de");
    let e = CsvQuoteValidationError::InvalidEscapeError;
    assert_eq!(validate_field(&s).err().unwrap(), e);
}

#[test]
fn reader_test_validate_field_invalid_escaped_quotes2() {
    let s = String::from("\"abc\"\"de");
    let e = CsvQuoteValidationError::InvalidEscapeError;
    assert_eq!(validate_field(&s).err().unwrap(), e);
}

#[test]
fn reader_test_validate_field_invalid_quotes_with_outer_single_quote() {
    let s = String::from("\"\"\"");
    let e = CsvQuoteValidationError::InvalidQuoteError;
    assert_eq!(validate_field(&s).err().unwrap(), e);
}

#[test]
fn reader_test_validate_field_invalid_quotes_with_outer_with_many_single_quote() {
    let s = String::from("\"abc\"de\"f\"");
    let e = CsvQuoteValidationError::InvalidQuoteError;
    assert_eq!(validate_field(&s).err().unwrap(), e);
}

#[test]
fn reader_test_validate_field_invalid_quotes_with_outer_with_inner_single_quote() {
    let s = String::from("\"a\"bc\"");
    let e = CsvQuoteValidationError::InvalidQuoteError;
    assert_eq!(validate_field(&s).err().unwrap(), e);
}

#[test]
fn reader_test_validate_field_invalid_quotes_no_outer() {
    let s = String::from("abc\"def");
    let e = CsvQuoteValidationError::InvalidQuoteError;
    assert_eq!(validate_field(&s).err().unwrap(), e);
}

#[test]
fn reader_test_validate_field_outer_quotes_with_one_valid_escape() {
    let s = String::from("\"a\"\"bc\"");
    assert!(validate_field(&s).is_ok())
}

#[test]
fn reader_test_validate_field_outer_quotes_with_many_valid_escapes() {
    let s = String::from("\"a\"\"bcd\"\"efg\"\"\"");
    assert!(validate_field(&s).is_ok())
}

#[test]
fn reader_test_has_outer_quotes_quoted() {
    let s = String::from("\"abc\"");
    assert_eq!(has_outer_quotes(&s), true)
}

#[test]
fn reader_test_has_outer_quotes_only_quotes() {
    let s = String::from("\"\"");
    assert_eq!(has_outer_quotes(&s), true)
}

#[test]
fn reader_test_has_outer_quotes_none() {
    let s = String::from("a\"\"bc");
    assert_eq!(has_outer_quotes(&s), false)
}

#[test]
fn reader_test_finalize_field_outer_quotes() {
    let s = String::from("\"this is a value\"");
    assert_eq!(finalize_field(&s), String::from("this is a value"))
}

#[test]
fn reader_test_finalize_field_escaped_quotes() {
    let s = String::from("\"this is a \"\"value\"\" that is quoted\"");
    assert_eq!(finalize_field(&s), String::from("this is a \"value\" that is quoted"))
}

#[test]
fn reader_test_finalize_field_escaped_quotes2() {
    let s = String::from("\"this is a \"\"\"\"value\"\" that\"\" is quoted\"");
    assert_eq!(finalize_field(&s), String::from("this is a \"\"value\" that\" is quoted"))
}

#[test]
fn reader_test_finalize_field_no_quotes() {
    let s = String::from("this is a string without quotes");
    assert_eq!(finalize_field(&s), String::from("this is a string without quotes"))
}

#[test]
fn reader_test_finalize_field_only_quotes() {
    let s = String::from("\"\"");
    assert_eq!(finalize_field(&s), String::new())
}

#[test]
fn reader_test_parse_csv_header_only_no_lf() {
    let s = String::from("Name,Type,Value");
    let r = parse_csv(&s, true);

    let expected_header: Vec<String> = vec![ String::from("Name"),
        String::from("Type"),
        String::from("Value")
    ];
    let expected_data: Vec<String> = vec![];

    let r = r.unwrap();

    assert_eq!(*r.get_headers(), expected_header);
    assert_eq!(*r.get_data(), expected_data)
}

#[test]
fn reader_test_parse_csv_header_only_lf() {
    let s = String::from("Name,Type,Value\n");
    let r = parse_csv(&s, true);

    let expected_header: Vec<String> = vec![ String::from("Name"),
        String::from("Type"),
        String::from("Value")
    ];
    let expected_data: Vec<String> = vec![];

    let r = r.unwrap();

    assert_eq!(*r.get_headers(), expected_header);
    assert_eq!(*r.get_data(), expected_data)
}

#[test]
fn reader_test_parse_csv_header_only_crlf() {
    let s = String::from("Name,Type,Value\r\n");
    let r = parse_csv(&s, true);

    let expected_header: Vec<String> = vec![ String::from("Name"),
        String::from("Type"),
        String::from("Value")
    ];
    let expected_data: Vec<String> = vec![];

    let r = r.unwrap();

    assert_eq!(*r.get_headers(), expected_header);
    assert_eq!(*r.get_data(), expected_data)
}

#[test]
fn reader_test_parse_csv_no_header_no_lf() {
    let s = String::from("value1,value2,this is a value");
    let r = parse_csv(&s, false);

    let expected_header: Vec<String> = vec![];
    let expected_data: Vec<String> = vec![
        String::from("value1"),
        String::from("value2"),
        String::from("this is a value"),
    ];

    let r = r.unwrap();

    assert_eq!(*r.get_headers(), expected_header);
    assert_eq!(*r.get_data(), expected_data)
}

#[test]
fn reader_test_parse_csv_no_header_lf() {
    let s = String::from("value1,value2,this is a value\n");
    let r = parse_csv(&s, false);

    let expected_header: Vec<String> = vec![];
    let expected_data: Vec<String> = vec![
        String::from("value1"),
        String::from("value2"),
        String::from("this is a value"),
    ];

    let r = r.unwrap();

    assert_eq!(*r.get_headers(), expected_header);
    assert_eq!(*r.get_data(), expected_data)
}

#[test]
fn reader_test_parse_csv_no_header_crlf() {
    let s = String::from("value1,value2,this is a value\r\n");
    let r = parse_csv(&s, false);

    let expected_header: Vec<String> = vec![];
    let expected_data: Vec<String> = vec![
        String::from("value1"),
        String::from("value2"),
        String::from("this is a value"),
    ];

    let r = r.unwrap();

    assert_eq!(*r.get_headers(), expected_header);
    assert_eq!(*r.get_data(), expected_data)
}

#[test]
fn reader_test_parse_csv_no_header_multiple_rows_trailing_lf() {
    let s = String::from(
        "value1,value2,this is a value\nvalue3,value4,another value\nvalue5,value6,yet another value\n");
    let r = parse_csv(&s, false);

    let expected_header: Vec<String> = vec![];
    let expected_data: Vec<String> = vec![
        String::from("value1"),
        String::from("value2"),
        String::from("this is a value"),

        String::from("value3"),
        String::from("value4"),
        String::from("another value"),

        String::from("value5"),
        String::from("value6"),
        String::from("yet another value"),
    ];

    let r = r.unwrap();

    assert_eq!(*r.get_headers(), expected_header);
    assert_eq!(*r.get_data(), expected_data)
}

#[test]
fn reader_test_parse_csv_no_header_multiple_rows_no_trailing_lf() {
    let s = String::from(
        "value1,value2,this is a value\nvalue3,value4,another value\nvalue5,value6,yet another value");
    let r = parse_csv(&s, false);

    let expected_header: Vec<String> = vec![];
    let expected_data: Vec<String> = vec![
        String::from("value1"),
        String::from("value2"),
        String::from("this is a value"),

        String::from("value3"),
        String::from("value4"),
        String::from("another value"),

        String::from("value5"),
        String::from("value6"),
        String::from("yet another value"),
    ];

    let r = r.unwrap();

    assert_eq!(*r.get_headers(), expected_header);
    assert_eq!(*r.get_data(), expected_data)
}

#[test]
fn reader_test_parse_csv_header_data() {
    let s = String::from("Name,Type,Value\nvalue1,int,30\n");
    let r = parse_csv(&s, true);

    let expected_header: Vec<String> = vec![
        String::from("Name"),
        String::from("Type"),
        String::from("Value")
    ];
    let expected_data: Vec<String> = vec![
        String::from("value1"),
        String::from("int"),
        String::from("30"),
    ];

    let r = r.unwrap();

    assert_eq!(*r.get_headers(), expected_header);
    assert_eq!(*r.get_data(), expected_data)
}

#[test]
fn reader_test_parse_csv_header_data_no_trailing_lf() {
    let s = String::from("Name,Type,Value\nvalue1,int,30");
    let r = parse_csv(&s, true);

    let expected_header: Vec<String> = vec![
        String::from("Name"),
        String::from("Type"),
        String::from("Value")
    ];
    let expected_data: Vec<String> = vec![
        String::from("value1"),
        String::from("int"),
        String::from("30"),
    ];

    let r = r.unwrap();

    assert_eq!(*r.get_headers(), expected_header);
    assert_eq!(*r.get_data(), expected_data)
}

#[test]
fn reader_test_parse_csv_header_data_multiple_rows_no_trailing_lf() {
    let s = String::from("Name,Type,Value\nvalue1,int,30\nvalue2,string,this is a value");
    let r = parse_csv(&s, true);

    let expected_header: Vec<String> = vec![
        String::from("Name"),
        String::from("Type"),
        String::from("Value")
    ];
    let expected_data: Vec<String> = vec![
        String::from("value1"),
        String::from("int"),
        String::from("30"),

        String::from("value2"),
        String::from("string"),
        String::from("this is a value"),
    ];

    let r = r.unwrap();

    assert_eq!(*r.get_headers(), expected_header);
    assert_eq!(*r.get_data(), expected_data)
}

#[test]
fn reader_test_parse_csv_header_data_multiple_rows_trailing_lf() {
    let s = String::from("Name,Type,Value\nvalue1,int,30\nvalue2,string,this is a value\n");
    let r = parse_csv(&s, true);

    let expected_header: Vec<String> = vec![
        String::from("Name"),
        String::from("Type"),
        String::from("Value")
    ];
    let expected_data: Vec<String> = vec![
        String::from("value1"),
        String::from("int"),
        String::from("30"),

        String::from("value2"),
        String::from("string"),
        String::from("this is a value"),
    ];

    let r = r.unwrap();

    assert_eq!(*r.get_headers(), expected_header);
    assert_eq!(*r.get_data(), expected_data)
}

#[test]
fn reader_test_parse_csv_header_data_multiple_rows_quoted_string_trailing_lf() {
    let s = String::from("Name,Type,Value\nvalue1,int,30\nvalue2,string,\"this is a value\"\n");
    let r = parse_csv(&s, true);

    let expected_header: Vec<String> = vec![
        String::from("Name"),
        String::from("Type"),
        String::from("Value")
    ];
    let expected_data: Vec<String> = vec![
        String::from("value1"),
        String::from("int"),
        String::from("30"),

        String::from("value2"),
        String::from("string"),
        String::from("this is a value"),
    ];

    let r = r.unwrap();

    assert_eq!(*r.get_headers(), expected_header);
    assert_eq!(*r.get_data(), expected_data)
}

#[test]
fn reader_test_parse_csv_header_data_quoted_string_has_newline() {
    let s = String::from("Name,Type,Value\nvalue1,string,\"this\nis a value\"");
    let r = parse_csv(&s, true);

    let expected_header: Vec<String> = vec![
        String::from("Name"),
        String::from("Type"),
        String::from("Value")
    ];
    let expected_data: Vec<String> = vec![
        String::from("value1"),
        String::from("string"),
        String::from("thisis a value"),
    ];

    let r = r.unwrap();

    assert_eq!(*r.get_headers(), expected_header);
    assert_eq!(*r.get_data(), expected_data)
}

#[test]
fn reader_test_parse_csv_header_data_escaped_quoted_string() {
    let s = String::from("Name,Type,Value\nvalue1,string,\"this \"\"is a value\"");
    let r = parse_csv(&s, true);

    let expected_header: Vec<String> = vec![
        String::from("Name"),
        String::from("Type"),
        String::from("Value")
    ];
    let expected_data: Vec<String> = vec![
        String::from("value1"),
        String::from("string"),
        String::from("this \"is a value"),
    ];

    let r = r.unwrap();

    assert_eq!(*r.get_headers(), expected_header);
    assert_eq!(*r.get_data(), expected_data)
}

#[test]
fn reader_test_parse_csv_header_data_invalid_row_lengths() {
    let s = String::from("Name,Type,Value\nvalue1,string");
    let r = parse_csv(&s, true);
    let e = CsvValidationError::RowFieldCountMismatchError { row: 2, expected: 3, found: 2};

    assert_eq!(r.err().unwrap(), e);
}

#[test]
fn reader_test_parse_csv_header_data_invalid_row_lengths2() {
    let s = String::from("Name,Type,Value\nvalue1,string\nvalue2,int,30");
    let r = parse_csv(&s, true);
    let e = CsvValidationError::RowFieldCountMismatchError { row: 2, expected: 3, found: 2};

    assert_eq!(r.err().unwrap(), e);
}

#[test]
fn reader_test_parse_csv_header_data_invalid_row_lengths3() {
    let s = String::from("Name,Type\nvalue1,string,abc");
    let r = parse_csv(&s, true);
    let e = CsvValidationError::RowFieldCountMismatchError { row: 2, expected: 2, found: 3};

    assert_eq!(r.err().unwrap(), e);
}

#[test]
fn reader_test_parse_csv_header_data_invalid_quotes() {
    let s = String::from("Name,Type,Value\nvalue1,string,a\"\"bc");
    let r = parse_csv(&s, true);

    let e = CsvValidationError::QuoteValidationError {
        subtype: CsvQuoteValidationError::InvalidEscapeError,
        row: 2, col: 3, value: String::from("a\"\"bc") };

    assert_eq!(r.err().unwrap(), e);
}

#[test]
fn reader_test_parse_csv_header_data_invalid_quotes2() {
    let s = String::from("Name,Type,Value\nvalue1,string,\"a\"bc\"");
    let r = parse_csv(&s, true);

    let e = CsvValidationError::QuoteValidationError {
        subtype: CsvQuoteValidationError::UnterminatedQuoteError,
        row: 2, col: 3, value: String::from("\"a\"bc\"") };

    assert_eq!(r.err().unwrap(), e);
}

#[test]
fn reader_test_parse_csv_header_data_invalid_quotes3() {
    let s = String::from("Name,Type,Value\n\"value1,string,abc");
    let r = parse_csv(&s, true);

    let e = CsvValidationError::QuoteValidationError {
        subtype: CsvQuoteValidationError::UnterminatedQuoteError,
        row: 2, col: 1, value: String::from("\"value1,string,abc") };

    assert_eq!(r.err().unwrap(), e);
}

#[test]
fn reader_test_parse_csv_header_data_invalid_quotes3_msg() {
    let s = String::from("Name,Type,Value\n\"value1,string,abc");
    let r = parse_csv(&s, true);

    let m = String::from(
        "At row 2. Unterminated outer quote error \
        in column: 1, value: \"value1,string,abc"
    );

    assert_eq!(r.err().map(|e| e.message()).unwrap(), m);
}
