use std::collections::HashSet;
use std::hash::{DefaultHasher, Hash, Hasher};

use base64::engine::general_purpose::URL_SAFE_NO_PAD;
use base64::Engine;
use rand::Rng;

use parser::b64::b64url_encode;
use parser::json::JsonValue;
use parser::output::{full_topic_name, Fields, Output, Tuple};
use parser::writer::file_writer::MemoryWriter;

#[test]
fn unique_id() {
    let mut rng = rand::rng();
    let fields = Fields::new(
        "machine_id",
        "original_file",
        &format!("archive_name_{}", rng.next_u32()),
        "archive_file",
    );

    let mut tuple = Tuple::new(&fields);
    let sort_data = rng.next_u64() as i64;
    let mut hashset = HashSet::new();

    tuple
        .set_data(JsonValue::Object(Vec::new()), Some(sort_data))
        .unwrap();

    hashset.insert(tuple.id.to_string());

    let expected_header = tuple.id[0..8].to_string();
    for i in 0..100u64 {
        let s = rng.next_u32();
        let data = vec![
            ("i".to_string(), JsonValue::Uint(i)),
            ("rd".to_string(), JsonValue::Uint(s as u64)),
        ];
        let mut tuple = Tuple::new(&fields);
        tuple
            .set_data(JsonValue::Object(data), Some(sort_data))
            .unwrap();
        let val = tuple.id;

        assert!(!hashset.contains(&val));
        hashset.insert(val.clone());

        assert_eq!(expected_header, val[0..8]);
    }
}

#[test]
fn unique_id_stabilility() {
    let mut rng = rand::rng();
    let fields = Fields::new(
        "machine",
        "original",
        &format!("archive_name_{}", rng.next_u32()),
        &format!("archive_file_{}", rng.next_u32()),
    );

    let mut tuple = Tuple::new(&fields);
    let sort_data = 122324;
    let data = vec![
        (
            "i".to_string(),
            JsonValue::Float { bits: (1.87f64).to_bits(), repr: "1.87".to_string() },
        ),
        ("rd".to_string(), JsonValue::Text("test".to_string())),
    ];
    tuple.set_data(JsonValue::Object(data), Some(sort_data)).unwrap();

    assert_eq!("1N0BAAAAAAAb3tT1XT2sSw", tuple.id);
}

#[test]
fn to_json_string() {
    let mut rng = rand::rng();
    let fields = Fields::new(
        "machine",
        "original",
        &format!("archive_name_{}", rng.next_u32()),
        &format!("archive_file_{}", rng.next_u32()),
    );

    let mut tuple = Tuple::new(&fields);
    let sort_data = 122324;
    let data = vec![
        (
            "i".to_string(),
            JsonValue::Float { bits: (1.87f64).to_bits(), repr: "1.87".to_string() },
        ),
        ("rd".to_string(), JsonValue::Text("test".to_string())),
    ];
    tuple.set_data(JsonValue::Object(data), Some(sort_data)).unwrap();
    let json = tuple.to_json_string().unwrap();

    let v: serde_json::Value = serde_json::from_str(&json).unwrap();

    let map = v.as_object().unwrap();
    assert!(map.contains_key("archive_name"));
    assert!(map.contains_key("computer"));
    assert!(map.contains_key("data"));
    assert!(map.contains_key("id"));
    assert!(map.contains_key("original_file"));
    assert!(map.contains_key("import_date"));

    let data = map.get("data").unwrap().as_object().unwrap();
    assert_eq!(1.87, data.get("i").unwrap().as_f64().unwrap());
    assert_eq!("test", data.get("rd").unwrap().as_str().unwrap());
}

// The decoded identifier of an envelope with a sort key starts with the
// key's little-endian encoding: rows sort by the domain time first.
#[test]
fn id_prefix_is_sort_key() {
    let fields = Fields::new("machine", "original", "archive", "file");
    let mut tuple = Tuple::new(&fields);
    let sort_data: i64 = 122324;
    tuple
        .set_data(
            JsonValue::Object(vec![("k".to_string(), JsonValue::Int(7))]),
            Some(sort_data),
        )
        .unwrap();
    let uid = URL_SAFE_NO_PAD.decode(tuple.id.as_bytes()).unwrap();
    assert_eq!(uid.len(), 16);
    assert_eq!(&uid[0..8], sort_data.to_le_bytes());
}

// The identifier depends on the data, the computer, the original file and
// the sort key alone: rebuilding the same envelope reproduces it, in any
// run, and a change in any input moves it.
#[test]
fn id_deterministic() {
    let make = |computer: &str, original: &str, v: i64, sd: i64| {
        let fields = Fields::new(computer, original, "some_archive", "some_file");
        let mut tuple = Tuple::new(&fields);
        tuple
            .set_data(
                JsonValue::Object(vec![("k".to_string(), JsonValue::Int(v))]),
                Some(sd),
            )
            .unwrap();
        tuple.id
    };
    assert_eq!(make("m", "o", 1, 2), make("m", "o", 1, 2));
    assert_ne!(make("m", "o", 1, 2), make("m", "o", 3, 2));
    assert_ne!(make("m", "o", 1, 2), make("x", "o", 1, 2));
    assert_ne!(make("m", "o", 1, 2), make("m", "x", 1, 2));
}

// The library's base64 agrees with the reference implementation on every
// tail length.
#[test]
fn base64_reference() {
    let cases: Vec<Vec<u8>> = vec![
        vec![],
        vec![0],
        vec![255],
        vec![1, 2],
        vec![1, 2, 3],
        vec![251, 252, 253, 254],
        (0u8..=255).collect(),
    ];
    for bytes in cases {
        assert_eq!(b64url_encode(&bytes), URL_SAFE_NO_PAD.encode(&bytes));
    }
}

// The routing key is the first two little-endian bytes of the standard
// 64-bit hash of the two source strings.
#[test]
fn routing_key_from_source_hash() {
    let fields = Fields::new("machine", "original", "archive", "file");
    let mut hasher = DefaultHasher::new();
    "machine".hash(&mut hasher);
    "original".hash(&mut hasher);
    let h = hasher.finish();
    assert_eq!(fields.key, [(h & 0xff) as u8, ((h >> 8) & 0xff) as u8]);
}

#[test]
fn topic_name_joins_context_and_name() {
    assert_eq!(full_topic_name("ctx", "evtx"), "ctx_evtx");
}

// `set_data` refuses a second call and a non-object payload, and leaves the
// envelope unchanged on refusal.
#[test]
fn set_data_refusals() {
    let fields = Fields::new("m", "o", "a", "f");
    let mut tuple = Tuple::new(&fields);
    let r = tuple.set_data(JsonValue::Text("not an object".to_string()), None);
    assert!(matches!(r, Err(parser::Error::JsonNotAnObject(_))));
    tuple.set_data(JsonValue::Object(Vec::new()), None).unwrap();
    let r = tuple.set_data(JsonValue::Object(Vec::new()), None);
    assert!(matches!(r, Err(parser::Error::DataField)));
}

// The fan-out hands one envelope to every sink and counts the row once.
#[test]
fn fanout_reaches_every_sink() {
    let fields = Fields::new("m", "o", "a", "f");
    let mut tuple = Tuple::new(&fields);
    tuple.set_data(JsonValue::Object(Vec::new()), None).unwrap();
    let mut output = Output::new(vec![MemoryWriter::new(5), MemoryWriter::new(5)]);
    output.write(&tuple).unwrap();
    assert_eq!(output.num_rows(), 1);
    assert_eq!(output.list[0].get_buffer().len(), 1);
    assert_eq!(output.list[1].get_buffer().len(), 1);
    assert_eq!(output.list[0].get_buffer()[0], output.list[1].get_buffer()[0]);
    output.flush().unwrap();
}
