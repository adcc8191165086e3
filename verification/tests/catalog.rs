use parser::configuration::{Configuration, FileFilter, ParserConfig, ParserType};
use parser::input::csv::{DateFormat, FieldType};
use parser::input::csv_mapping::CsvMapping;
use parser::input::evtx::{evtx_fields, format_event};
use parser::json::JsonValue;
use parser::output::OutputConfig;

fn config_with(parsers: Vec<ParserConfig>) -> Configuration {
    Configuration {
        client_context: "test".to_string(),
        input_folder: "input".to_string(),
        input_is_decompressed: false,
        temp_folder: "tmp".to_string(),
        archive_threads: 0,
        parsing_threads: 0,
        decompression_threads: 0,
        parsers,
        output: vec![OutputConfig::File { folder: "output".to_string() }],
    }
}

fn parser_entry(pattern: &str, parser: ParserType) -> ParserConfig {
    ParserConfig { file_filter: FileFilter::new(pattern).unwrap(), parser }
}

#[test]
fn topics_of_each_parser_kind() {
    let config = config_with(vec![
        parser_entry("SRUDB.*\\.dat$", ParserType::Srum),
        parser_entry(
            "test.*\\.csv$",
            ParserType::Csv {
                mapping_file: "conf/test.yaml".to_string(),
                best_effort: Some(true),
                skip_lines: Some(0),
            },
        ),
        parser_entry("SAM$", ParserType::Hive { root_name: "\\HKLM\\SAM".to_string() }),
        parser_entry(".evtx$", ParserType::Evtx),
    ]);

    let mapping = CsvMapping {
        topic: "ntfs_info".to_string(),
        sort_field: Some("CreationDate".to_string()),
        csv_delimiter: ',',
        default_date_format: DateFormat::Rfc3339,
        fields: vec![("CreationDate".to_string(), FieldType::Date {
            mandatory: true,
            input_date_format: None,
        })],
    };

    let topics = config.list_topics(&vec![mapping]).unwrap();
    assert_eq!(topics.len(), 13);

    assert_eq!(topics[0].topic_name, "test_srum_app_timeline");
    assert_eq!(topics[0].table_name, "srum_app_timeline");
    assert_eq!(topics[0].sort_field, "TimeStamp");
    assert_eq!(topics[9].table_name, "srum_wpn_provider");

    assert_eq!(topics[10].topic_name, "test_ntfs_info");
    assert_eq!(topics[10].sort_field, "CreationDate");
    assert_eq!(topics[10].partial_field_def.len(), 1);

    assert_eq!(topics[11].table_name, "hive");
    assert_eq!(topics[11].sort_field, "TimeStamp");
    assert_eq!(topics[11].partial_field_def.len(), 3);

    assert_eq!(topics[12].table_name, "evtx");
    assert_eq!(topics[12].topic_name, "test_evtx");
    assert_eq!(topics[12].sort_field, "System.TimeCreated");
    assert_eq!(topics[12].partial_field_def.len(), 15);
}

#[test]
fn repeated_topics_listed_once() {
    let config = config_with(vec![
        parser_entry("one.evtx$", ParserType::Evtx),
        parser_entry("two.evtx$", ParserType::Evtx),
        parser_entry("a$", ParserType::Srum),
        parser_entry("b$", ParserType::Srum),
    ]);
    let topics = config.list_topics(&Vec::new()).unwrap();
    assert_eq!(topics.len(), 11);
    assert_eq!(topics[0].table_name, "evtx");
    assert_eq!(topics[1].table_name, "srum_app_timeline");
}

#[test]
fn event_catalog_is_fixed() {
    let f = evtx_fields();
    assert_eq!(f.len(), 15);
    assert_eq!(f[2].0, "System.EventID");
    assert_eq!(f[14].0, "System.TimeCreated");
}

fn obj(entries: Vec<(&str, JsonValue)>) -> JsonValue {
    JsonValue::Object(entries.into_iter().map(|(k, v)| (k.to_string(), v)).collect())
}

// The normalizer keeps the Event object, lifts the separated attributes up
// into System, and replaces the creation stamp with its canonical text; the
// sort key is that instant in whole seconds.
#[test]
fn event_normalization() {
    let event = obj(vec![(
        "Event",
        obj(vec![
            (
                "System",
                obj(vec![
                    ("Provider_attributes", obj(vec![("Name", JsonValue::Text("p".into()))])),
                    ("EventID", JsonValue::Uint(403)),
                    (
                        "Security_attributes",
                        obj(vec![("UserID", JsonValue::Text("S-1-5-18".into()))]),
                    ),
                    (
                        "TimeCreated_attributes",
                        obj(vec![(
                            "SystemTime",
                            JsonValue::Text("2016-04-26T21:30:13.52Z".into()),
                        )]),
                    ),
                ]),
            ),
            ("EventData", obj(vec![("DriverName", JsonValue::Text("hal.inf".into()))])),
        ]),
    )]);

    let (v, sort) = format_event(event).unwrap();
    let expected_secs = chrono::DateTime::parse_from_rfc3339("2016-04-26T21:30:13.52Z")
        .unwrap()
        .timestamp();
    assert_eq!(sort, expected_secs);

    let entries = match v {
        JsonValue::Object(entries) => entries,
        _ => panic!("expected an object"),
    };
    let system = entries.iter().find(|(k, _)| k == "System").map(|(_, v)| v).unwrap();
    let sys_entries = match system {
        JsonValue::Object(e) => e,
        _ => panic!("expected an object"),
    };
    let keys: Vec<&str> = sys_entries.iter().map(|(k, _)| k.as_str()).collect();
    assert!(keys.contains(&"Provider"));
    assert!(keys.contains(&"UserID"));
    assert!(keys.contains(&"TimeCreated"));
    assert!(!keys.contains(&"Provider_attributes"));
    assert!(!keys.contains(&"Security_attributes"));
    assert!(!keys.contains(&"TimeCreated_attributes"));
    let tc = sys_entries.iter().find(|(k, _)| k == "TimeCreated").map(|(_, v)| v).unwrap();
    assert!(matches!(tc, JsonValue::Text(s) if s == "2016-04-26 21:30:13.520"));

    // the moved sections keep their values, and untouched members survive
    let provider = sys_entries.iter().find(|(k, _)| k == "Provider").map(|(_, v)| v).unwrap();
    match provider {
        JsonValue::Object(p) => {
            assert!(matches!(&p[0].1, JsonValue::Text(s) if s == "p"));
        },
        _ => panic!("expected the moved provider object"),
    }
    let uid = sys_entries.iter().find(|(k, _)| k == "UserID").map(|(_, v)| v).unwrap();
    assert!(matches!(uid, JsonValue::Text(s) if s == "S-1-5-18"));
    let eid = sys_entries.iter().find(|(k, _)| k == "EventID").map(|(_, v)| v).unwrap();
    assert!(matches!(eid, JsonValue::Uint(403)));
    assert!(entries.iter().any(|(k, _)| k == "EventData"));
}

#[test]
fn malformed_event_is_refused() {
    let r = format_event(JsonValue::Text("no".into()));
    assert!(matches!(r, Err(parser::Error::JsonNotAnObject(_))));
    let r = format_event(obj(vec![("Other", JsonValue::Null)]));
    assert!(matches!(r, Err(parser::Error::Evtx(_))));
    let r = format_event(obj(vec![("Event", obj(vec![("System", obj(vec![]))]))]));
    assert!(matches!(r, Err(parser::Error::JsonNotAnObject(_))));
}
