use parser::input::csv::{
    convert_line, create_converters, parse_i64, parse_records, Converter, DateFormat, FieldType,
};
use std::hash::{DefaultHasher, Hash, Hasher};

use parser::input::csv_mapping::CsvMapping;
use parser::json::JsonValue;
use parser::output::{Fields, Output};
use parser::writer::file_writer::MemoryWriter;

fn converter(field_type: FieldType) -> Converter {
    Converter {
        field_name: String::new(),
        mandatory: false,
        field_type,
        default_date_format: DateFormat::Rfc3339,
    }
}

#[test]
fn string() {
    let converter = converter(FieldType::String { mandatory: false });

    let value = "hello world";

    let res = converter.to_json_value(value).unwrap();

    assert!(matches!(res, JsonValue::Text(s) if s == value));
}

#[test]
fn integer() {
    let converter = converter(FieldType::Integer { mandatory: false });
    let value = "1000";

    let res = converter.to_json_value(value).unwrap();

    assert!(matches!(res, JsonValue::Int(v) if v.to_string() == value));

    let value = "1000.32";
    converter.to_json_value(value).expect_err("Invalid Integer");
}

#[test]
fn float() {
    let converter = converter(FieldType::Float { mandatory: false });
    let value = "1000";

    let res = converter.to_json_value(value).unwrap();

    assert!(matches!(res, JsonValue::Float { bits, .. } if f64::from_bits(bits).to_string() == value));

    let value = "1000.43242";
    let res = converter.to_json_value(value).unwrap();

    assert!(matches!(res, JsonValue::Float { bits, .. } if f64::from_bits(bits).to_string() == value));

    let value = "ABCD";
    converter.to_json_value(value).expect_err("Invalid Float");
}

#[test]
fn date_rfc_2822() {
    let converter = converter(FieldType::Date {
        mandatory: false,
        input_date_format: Some(DateFormat::Rfc2822),
    });

    let value = "Tue, 1 Jul 2003 10:52:37 +0200";

    let res = converter.to_json_value(value).unwrap();

    assert!(matches!(res, JsonValue::Text(s) if s == "2003-07-01 08:52:37.000"));

    let value = "ABCD";
    converter.to_json_value(value).expect_err("Invalid Date");
}

#[test]
fn date_rfc_3339() {
    let converter = converter(FieldType::Date {
        mandatory: false,
        input_date_format: Some(DateFormat::Rfc3339),
    });

    let value = "1996-12-19T16:39:57-08:00";

    let res = converter.to_json_value(value).unwrap();
    assert!(matches!(res, JsonValue::Text(s) if s == "1996-12-20 00:39:57.000"));

    let value = "ABCD";
    converter.to_json_value(value).expect_err("Invalid Date");
}

#[test]
fn date_pattern_timezone() {
    let converter = converter(FieldType::Date {
        mandatory: false,
        input_date_format: Some(DateFormat::Pattern("%Y-%m-%d %H:%M:%S %z".to_owned(), true)),
    });

    let value = "2016-01-22 03:08:51 -08:00";

    let res = converter.to_json_value(value).unwrap();
    assert!(matches!(res, JsonValue::Text(s) if s == "2016-01-22 11:08:51.000"));

    let value = "ABCD";
    converter.to_json_value(value).expect_err("Invalid Date");
}

#[test]
fn date_pattern_naive() {
    let converter = converter(FieldType::Date {
        mandatory: false,
        input_date_format: Some(DateFormat::Pattern("%Y-%m-%d %H:%M:%S".to_owned(), false)),
    });

    let value = "2016-01-22 03:08:51";

    let res = converter.to_json_value(value).unwrap();
    assert!(matches!(res, JsonValue::Text(s) if s == "2016-01-22 03:08:51.000"));

    let value = "ABCD";
    converter.to_json_value(value).expect_err("Invalid Date");
}

// The lexical rules of integer cells: optional sign, digits only, the
// 64-bit range and nothing more.
#[test]
fn integer_lexical_rules() {
    assert_eq!(parse_i64("0").unwrap(), 0);
    assert_eq!(parse_i64("+5").unwrap(), 5);
    assert_eq!(parse_i64("-5").unwrap(), -5);
    assert_eq!(parse_i64("9223372036854775807").unwrap(), i64::MAX);
    assert_eq!(parse_i64("-9223372036854775808").unwrap(), i64::MIN);
    assert!(parse_i64("9223372036854775808").is_err());
    assert!(parse_i64("-9223372036854775809").is_err());
    assert!(parse_i64("").is_err());
    assert!(parse_i64("+").is_err());
    assert!(parse_i64("12x").is_err());
    assert!(parse_i64(" 12").is_err());
}

fn mapping_with(fields: Vec<(String, FieldType)>, sort: Option<&str>) -> CsvMapping {
    CsvMapping {
        topic: "t".to_string(),
        sort_field: sort.map(|s| s.to_string()),
        csv_delimiter: ',',
        default_date_format: DateFormat::Rfc3339,
        fields,
    }
}

// An empty cell in a non-mandatory column leaves its key out of the row
// object entirely.
#[test]
fn empty_cell_is_omitted() {
    let mapping = mapping_with(
        vec![("b".to_string(), FieldType::Integer { mandatory: false })],
        None,
    );
    let headers = vec!["a".to_string(), "b".to_string(), "c".to_string()];
    let (converters, sort_col) = create_converters(&headers, &mapping);
    assert_eq!(sort_col, usize::MAX);

    let cells = vec!["x".to_string(), String::new(), "y".to_string()];
    let (value, sort) = convert_line(&converters, &cells, usize::MAX, 0).unwrap();
    assert!(sort.is_none());
    match value {
        JsonValue::Object(entries) => {
            let keys: Vec<&str> = entries.iter().map(|(k, _)| k.as_str()).collect();
            assert_eq!(keys, vec!["a", "c"]);
        },
        _ => panic!("expected an object"),
    }
}

// An empty cell in a mandatory column fails the row.
#[test]
fn empty_mandatory_cell_fails() {
    let mapping = mapping_with(
        vec![("a".to_string(), FieldType::String { mandatory: true })],
        None,
    );
    let headers = vec!["a".to_string()];
    let (converters, _) = create_converters(&headers, &mapping);
    let cells = vec![String::new()];
    let r = convert_line(&converters, &cells, usize::MAX, 3);
    assert!(matches!(r, Err(parser::Error::CsvMandatoryField(3, 0, f)) if f == "a"));
}

// A cell that does not parse under its column type names the column.
#[test]
fn bad_cell_names_its_column() {
    let mapping = mapping_with(
        vec![("a".to_string(), FieldType::Integer { mandatory: false })],
        None,
    );
    let headers = vec!["a".to_string()];
    let (converters, _) = create_converters(&headers, &mapping);
    let cells = vec!["xyz".to_string()];
    let r = convert_line(&converters, &cells, usize::MAX, 7);
    assert!(matches!(r, Err(parser::Error::CsvParsing(7, 0, f, _)) if f == "a"));
    let r2 = converters[0].to_sort_data("xyz");
    assert!(matches!(r2, Err(parser::Error::ParseInt(_))));
    let fconv = converter(FieldType::Float { mandatory: false });
    assert!(matches!(fconv.to_sort_data("zz"), Err(parser::Error::ParseFloat(_))));
    let dconv = converter(FieldType::Date { mandatory: false, input_date_format: None });
    assert!(matches!(dconv.to_sort_data("zz"), Err(parser::Error::ParseDate(_))));
}

// A decoded row, fed back through a JSON parser, returns the original
// values: strings and numbers survive the round trip, dates canonicalized.
#[test]
fn row_round_trip() {
    let mapping = mapping_with(
        vec![
            ("n".to_string(), FieldType::Integer { mandatory: false }),
            ("f".to_string(), FieldType::Float { mandatory: false }),
            ("d".to_string(), FieldType::Date { mandatory: false, input_date_format: None }),
        ],
        Some("n"),
    );
    let headers =
        vec!["s".to_string(), "n".to_string(), "f".to_string(), "d".to_string()];
    let (converters, sort_col) = create_converters(&headers, &mapping);
    assert_eq!(sort_col, 1);

    let cells = vec![
        "plain \"text\"\\".to_string(),
        "-42".to_string(),
        "1000.43242".to_string(),
        "1996-12-19T16:39:57-08:00".to_string(),
    ];
    let (value, sort) = convert_line(&converters, &cells, sort_col, 0).unwrap();
    assert_eq!(sort, Some(-42));

    let fields = Fields::new("m", "o", "a", "f");
    let mut tuple = parser::output::Tuple::new(&fields);
    tuple.set_data(value, sort).unwrap();
    let line = tuple.to_json_string().unwrap();

    let v: serde_json::Value = serde_json::from_str(&line).unwrap();
    let data = v.get("data").unwrap();
    assert_eq!(data.get("s").unwrap().as_str().unwrap(), "plain \"text\"\\");
    assert_eq!(data.get("n").unwrap().as_i64().unwrap(), -42);
    assert_eq!(data.get("f").unwrap().as_f64().unwrap(), 1000.43242);
    assert_eq!(data.get("d").unwrap().as_str().unwrap(), "1996-12-20 00:39:57.000");
}

fn simple_records(n: usize) -> Vec<Result<Vec<String>, String>> {
    (0..n).map(|i| Ok(vec![format!("row{i}"), i.to_string()])).collect()
}

// `skip_lines` = 0 keeps the first data row; `skip_lines` = k drops exactly
// the first k data rows, the header never counted.
#[test]
fn skip_lines_drops_exactly_k_rows() {
    let mapping = mapping_with(
        vec![("n".to_string(), FieldType::Integer { mandatory: false })],
        None,
    );
    let headers = vec!["s".to_string(), "n".to_string()];
    let (converters, sort_col) = create_converters(&headers, &mapping);
    let fields = Fields::new("m", "o", "a", "f");

    for skip in [0usize, 1, 2] {
        let mut output = Output::new(vec![MemoryWriter::new(100)]);
        let records = simple_records(5);
        parse_records(&converters, &records, sort_col, &fields, &mut output, false, skip)
            .unwrap();
        assert_eq!(output.num_rows(), 5 - skip);
        let buffer = output.list[0].get_buffer();
        let first: serde_json::Value = serde_json::from_str(&buffer[0]).unwrap();
        let label = first.get("data").unwrap().get("s").unwrap().as_str().unwrap().to_string();
        assert_eq!(label, format!("row{skip}"));
    }
}

// Under best effort a bad row is skipped; otherwise it aborts the file.
#[test]
fn best_effort_skips_bad_rows() {
    let mapping = mapping_with(
        vec![("n".to_string(), FieldType::Integer { mandatory: true })],
        None,
    );
    let headers = vec!["s".to_string(), "n".to_string()];
    let (converters, sort_col) = create_converters(&headers, &mapping);
    let fields = Fields::new("m", "o", "a", "f");

    let mut records = simple_records(3);
    records[1] = Ok(vec!["bad".to_string(), String::new()]);

    let mut output = Output::new(vec![MemoryWriter::new(100)]);
    parse_records(&converters, &records, sort_col, &fields, &mut output, true, 0).unwrap();
    assert_eq!(output.num_rows(), 2);

    let mut output = Output::new(vec![MemoryWriter::new(100)]);
    let r = parse_records(&converters, &records, sort_col, &fields, &mut output, false, 0);
    assert!(matches!(r, Err(parser::Error::CsvMandatoryField(1, 1, _))));

    // a record the reader itself rejected carries its error through
    let mut records = simple_records(2);
    records[0] = Err("broken line".to_string());
    let mut output = Output::new(vec![MemoryWriter::new(100)]);
    let r = parse_records(&converters, &records, sort_col, &fields, &mut output, false, 0);
    assert!(matches!(r, Err(parser::Error::Io(m)) if m == "broken line"));
}

// The sort column takes the cell's numeric value for numbers, and a 64-bit
// text hash for strings.
#[test]
fn sort_column_values() {
    let sconv = converter(FieldType::String { mandatory: false });
    let mut hasher = DefaultHasher::new();
    "test".hash(&mut hasher);
    assert_eq!(sconv.to_sort_data("test").unwrap(), hasher.finish() as i64);

    let fconv = converter(FieldType::Float { mandatory: false });
    assert_eq!(fconv.to_sort_data("12.9").unwrap(), 12);
    assert_eq!(fconv.to_sort_data("-12.9").unwrap(), -12);
}
