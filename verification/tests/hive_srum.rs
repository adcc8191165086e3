use parser::dates::{filetime_to_unix_millis, filetime_to_unix_secs, filetime_to_utc_text};
use parser::input::hive::{
    hive_fields, parse_hive, parse_key_value, HiveKey, HiveValue, HiveValueData,
};
use parser::input::srum::{build_string_index, convert_sid, ese_to_json, lookup_index, EseValue};
use parser::input::srum_model::srum_tables;
use parser::json::JsonValue;
use parser::output::{Fields, Output};
use parser::writer::file_writer::MemoryWriter;

#[test]
fn sid_converter() {
    let bytes = vec![
        1, 5, 0, 0, 0, 0, 0, 5, 21, 0, 0, 0, 2, 49, 177, 214, 81, 110, 183, 63, 11, 252, 167,
        173, 147, 48, 0, 0,
    ];
    let expected = "S-1-5-21-3601936642-1068985937-2913467403-12435";
    let result = convert_sid(&bytes);
    assert_eq!(result, expected);
}

// The revision byte is rendered as found, not assumed.
#[test]
fn sid_revision_rendered() {
    let bytes = vec![2, 1, 0, 0, 0, 0, 0, 5, 9, 0, 0, 0];
    assert_eq!(convert_sid(&bytes), "S-2-5-9");
    let bytes = vec![1, 0, 0, 0, 0, 0, 1, 0];
    assert_eq!(convert_sid(&bytes), "S-1-256");
}

// A FILETIME of zero is the very start of the Windows epoch.
#[test]
fn filetime_zero_is_windows_epoch() {
    assert_eq!(filetime_to_utc_text(0), "1601-01-01 00:00:00.000");
    assert_eq!(filetime_to_unix_millis(0), -11_644_473_600_000);
    assert_eq!(filetime_to_unix_secs(0), -11_644_473_600);
    // the unix epoch itself, in 100-nanosecond ticks since 1601
    assert_eq!(filetime_to_utc_text(116_444_736_000_000_000), "1970-01-01 00:00:00.000");
}

// A value of an unsupported type is emitted as a JSON-object-shaped error
// text carrying the lossy text, the base64 bytes and the reader's words.
#[test]
fn unsupported_value_text_shape() {
    let v = parse_key_value(
        &HiveValueData::Unsupported {
            bytes: vec![],
            error: "The key value data type at offset 0x00001800 is 0x00000201, which is not supported"
                .to_string(),
        },
    );
    match v {
        JsonValue::Text(s) => {
            assert!(s.contains("DataString"));
            assert!(s.contains("DataBase64"));
            assert!(s.contains("Error"));
            assert_eq!(
                s,
                "{\"DataString\":\"\", \"DataBase64\":\"\", \"Error\":\"The key value data type at offset 0x00001800 is 0x00000201, which is not supported\"}"
            );
        },
        _ => panic!("expected the error text"),
    }

    let v = parse_key_value(
        &HiveValueData::Unsupported { bytes: vec![b'h', b'i', 0, 0xff], error: "e".to_string() },
    );
    match v {
        JsonValue::Text(s) => {
            // NULs removed, invalid bytes replaced, raw bytes in base64
            assert!(s.contains("\"DataString\":\"hi\u{fffd}\""));
            assert!(s.contains("\"DataBase64\":\"aGkA_w\""));
        },
        _ => panic!("expected the error text"),
    }
}

#[test]
fn hive_value_kinds() {
    assert!(matches!(
        parse_key_value(&HiveValueData::Str("sz-test".to_string())),
        JsonValue::Text(s) if s == "sz-test"
    ));
    assert!(matches!(
        parse_key_value(&HiveValueData::MultiStr(vec!["a".to_string(), "b".to_string()])),
        JsonValue::Text(s) if s == "ab"
    ));
    assert!(matches!(parse_key_value(&HiveValueData::Dword(7)), JsonValue::Uint(7)));
    assert!(matches!(parse_key_value(&HiveValueData::Qword(u64::MAX)), JsonValue::Uint(u64::MAX)));
    assert!(matches!(
        parse_key_value(&HiveValueData::Binary(vec![1, 2, 3])),
        JsonValue::Text(s) if s == "AQID"
    ));
    assert!(matches!(parse_key_value(&HiveValueData::Other), JsonValue::Null));
}

// The walk of a hive tree: one row per key, one per value, paths joined
// with backslashes, an empty value name shown as Default.
#[test]
fn hive_walk_rows() {
    let tree = HiveKey {
        name: "root".to_string(),
        timestamp: 0,
        class_name: None,
        values: Vec::new(),
        subkeys: vec![HiveKey {
            name: "data-test".to_string(),
            timestamp: 116_444_736_000_000_000,
            class_name: Some("cls".to_string()),
            values: vec![
                HiveValue {
                    name: "reg-sz".to_string(),
                    data: HiveValueData::Str("sz-test".to_string()),
                },
                HiveValue { name: String::new(), data: HiveValueData::Dword(1) },
            ],
            subkeys: vec![HiveKey {
                name: "inner".to_string(),
                timestamp: 0,
                class_name: None,
                values: Vec::new(),
                subkeys: Vec::new(),
            }],
        }],
    };

    let fields = Fields::new("m", "o", "a", "f");
    let mut output = Output::new(vec![MemoryWriter::new(100)]);
    let n = parse_hive(&tree, "kernel", &fields, &mut output).unwrap();
    assert_eq!(n, 4);

    let buffer = output.list[0].get_buffer();
    let key_row: serde_json::Value = serde_json::from_str(&buffer[0]).unwrap();
    let data = key_row.get("data").unwrap();
    assert_eq!(data.get("Path").unwrap().as_str().unwrap(), "kernel\\data-test");
    assert_eq!(data.get("TimeStamp").unwrap().as_str().unwrap(), "1970-01-01 00:00:00.000");
    assert_eq!(data.get("Class").unwrap().as_str().unwrap(), "cls");

    let value_row: serde_json::Value = serde_json::from_str(&buffer[1]).unwrap();
    let data = value_row.get("data").unwrap();
    assert_eq!(data.get("Path").unwrap().as_str().unwrap(), "kernel\\data-test\\reg-sz");
    assert_eq!(data.get("Value").unwrap().as_str().unwrap(), "sz-test");

    let default_row: serde_json::Value = serde_json::from_str(&buffer[2]).unwrap();
    let data = default_row.get("data").unwrap();
    assert_eq!(data.get("Path").unwrap().as_str().unwrap(), "kernel\\data-test\\Default");
    assert_eq!(data.get("Value").unwrap().as_i64().unwrap(), 1);

    let inner_row: serde_json::Value = serde_json::from_str(&buffer[3]).unwrap();
    let data = inner_row.get("data").unwrap();
    assert_eq!(data.get("Path").unwrap().as_str().unwrap(), "kernel\\data-test\\inner");
}

#[test]
fn hive_field_catalog() {
    let f = hive_fields();
    assert_eq!(f.len(), 3);
    assert_eq!(f[0].0, "Path");
    assert_eq!(f[2].0, "TimeStamp");
}

#[test]
fn string_index_decodes_sids() {
    let sid = vec![
        1, 5, 0, 0, 0, 0, 0, 5, 21, 0, 0, 0, 2, 49, 177, 214, 81, 110, 183, 63, 11, 252, 167,
        173, 147, 48, 0, 0,
    ];
    let rows = vec![
        (Some(3u32), Some(7i32), Some(sid)),
        (Some(1u32), Some(8i32), Some(vec![b'a', 0, b'b'])),
        (None, Some(9i32), Some(vec![b'x'])),
        // a later row with the same key replaces the earlier one
        (Some(1u32), Some(8i32), Some(vec![b'c'])),
    ];
    let index = build_string_index(&rows);
    assert_eq!(index.len(), 3);
    assert_eq!(
        lookup_index(&index, 7).unwrap(),
        "S-1-5-21-3601936642-1068985937-2913467403-12435"
    );
    assert_eq!(lookup_index(&index, 8).unwrap(), "c");
    assert!(lookup_index(&index, 9).is_none());
}

#[test]
fn raw_value_kinds() {
    assert!(matches!(ese_to_json(EseValue::Bool(true)), JsonValue::Text(s) if s == "true"));
    assert!(matches!(ese_to_json(EseValue::Bool(false)), JsonValue::Text(s) if s == "false"));
    assert!(matches!(ese_to_json(EseValue::I16(-4)), JsonValue::Int(-4)));
    assert!(matches!(ese_to_json(EseValue::U32(9)), JsonValue::Uint(9)));
    assert!(matches!(
        ese_to_json(EseValue::Binary(vec![1, 2, 3])),
        JsonValue::Text(s) if s == "AQID"
    ));
    assert!(matches!(
        ese_to_json(EseValue::Float { bits: (1.5f64).to_bits(), repr: Some("1.5".to_string()) }),
        JsonValue::Float { .. }
    ));
    assert!(matches!(
        ese_to_json(EseValue::Float { bits: f64::NAN.to_bits(), repr: None }),
        JsonValue::Null
    ));
}

#[test]
fn ten_known_tables() {
    let tables = srum_tables();
    assert_eq!(10, tables.len());
    assert_eq!(tables[5].name, "{DD6636C4-8929-4683-974E-22C046A43763}");
    assert_eq!(tables[5].topic, "srum_network_connectivity_usage");
    for t in &tables {
        assert_eq!(t.fields[1].0, "TimeStamp");
    }
}
