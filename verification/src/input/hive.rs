use vstd::prelude::*;

use crate::b64::{b64url_encode, b64url_of};
use crate::configuration::DataType;
use crate::dates::{filetime_to_unix_millis, filetime_to_unix_secs, format_utc_millis};
use crate::errors::Error;
use crate::json::JsonValue;
use crate::output::{Fields, Output, OutputWriter, Tuple};
use crate::text::push_char;

verus! {

/// The topic of decoded registry rows.
pub const HIVE_TABLE_NAME: &'static str = "hive";

/// The field that orders registry rows.
pub const HIVE_SORT_FIELD: &'static str = "TimeStamp";

/// The typed registry fields known in advance of decoding.
pub fn hive_fields() -> (r: Vec<(String, DataType)>)
    ensures
        r@.len() == 3,
        r@[0].0@ == "Path"@ && r@[0].1 == DataType::String,
        r@[1].0@ == "Class"@ && r@[1].1 == DataType::String,
        r@[2].0@ == "TimeStamp"@ && r@[2].1 == DataType::Date,
{
    let mut r: Vec<(String, DataType)> = Vec::new();
    r.push((String::from_str("Path"), DataType::String));
    r.push((String::from_str("Class"), DataType::String));
    r.push((String::from_str("TimeStamp"), DataType::Date));
    r
}

/// One decoded registry value, as plain data: text kinds as their text,
/// 32- and 64-bit kinds as numbers, binary kinds as raw bytes, a multi-text
/// as its parts; a value whose type tag is unsupported carries its raw bytes
/// and the reader's error text, and one whose bytes could not be read at all
/// carries only the error text.
pub enum HiveValueData {
    Str(String),
    MultiStr(Vec<String>),
    Dword(u32),
    Qword(u64),
    Binary(Vec<u8>),
    Unsupported { bytes: Vec<u8>, error: String },
    ReadError(String),
    Other,
}

/// One named value under a registry key.
pub struct HiveValue {
    pub name: String,
    pub data: HiveValueData,
}

/// One registry key: its name, its FILETIME stamp, its optional class, its
/// values, and its subkeys.
pub struct HiveKey {
    pub name: String,
    pub timestamp: u64,
    pub class_name: Option<String>,
    pub values: Vec<HiveValue>,
    pub subkeys: Vec<HiveKey>,
}

/// What the text of the bytes of an unsupported value is: the lossy UTF-8
/// decoding with the NUL characters removed.
pub uninterp spec fn lossy_clean(bytes: Seq<u8>) -> Seq<char>;

/// Relies on std's String::from_utf8_lossy followed by str::replace: the
/// text of the bytes, invalid sequences replaced, NULs removed; it depends
/// on the bytes alone.
#[verifier::external_body]
pub(crate) fn utf8_lossy_clean(b: &Vec<u8>) -> (r: String)
    ensures
        r@ == lossy_clean(b@),
{
    String::from_utf8_lossy(b.as_slice()).replace('\0', "")
}

/// The concatenation of several texts, in order, with nothing between them.
pub open spec fn concat_texts(parts: Seq<String>) -> Seq<char>
    decreases parts.len(),
{
    if parts.len() == 0 {
        Seq::empty()
    } else {
        concat_texts(parts.drop_last()) + parts.last()@
    }
}

/// The JSON-object-shaped error text emitted for a value of an unsupported
/// type: the lossy text, the unpadded URL-safe base64 of the raw bytes, and
/// the reader's error, spliced into fixed quotes.
pub open spec fn unsupported_value_text(bytes: Seq<u8>, error: Seq<char>) -> Seq<char> {
    "{\"DataString\":\""@ + lossy_clean(bytes) + "\", \"DataBase64\":\""@ + b64url_of(bytes)
        + "\", \"Error\":\""@ + error + "\"}"@
}

/// How one decoded registry value appears in the row object.
pub open spec fn hive_value_ok(d: HiveValueData, v: JsonValue) -> bool {
    match d {
        HiveValueData::Str(s) => v matches JsonValue::Text(t) && t@ == s@,
        HiveValueData::MultiStr(parts) => v matches JsonValue::Text(t) && t@ == concat_texts(
            parts@,
        ),
        HiveValueData::Dword(x) => v == JsonValue::Uint(x as u64),
        HiveValueData::Qword(x) => v == JsonValue::Uint(x),
        HiveValueData::Binary(b) => v matches JsonValue::Text(t) && t@ == b64url_of(b@),
        HiveValueData::Unsupported { bytes, error } => v matches JsonValue::Text(t) && t@
            == unsupported_value_text(bytes@, error@),
        HiveValueData::ReadError(e) => v matches JsonValue::Text(t) && t@ == e@,
        HiveValueData::Other => v is Null,
    }
}

/// Decode one registry value into its JSON form.
#[verifier::loop_isolation(false)]
pub fn parse_key_value(d: &HiveValueData) -> (r: JsonValue)
    ensures
        hive_value_ok(*d, r),
{
    match d {
        HiveValueData::Str(s) => JsonValue::Text(s.clone()),
        HiveValueData::MultiStr(parts) => {
            let mut out = String::new();
            let mut i: usize = 0;
            while i < parts.len()
                invariant
                    i <= parts@.len(),
                    out@ == concat_texts(parts@.take(i as int)),
                decreases parts.len() - i,
            {
                out.append(parts[i].as_str());
                proof {
                    let t = parts@.take(i + 1);
                    assert(t.drop_last() =~= parts@.take(i as int));
                    assert(t.last() == parts@[i as int]);
                }
                i = i + 1;
            }
            proof {
                assert(parts@.take(parts@.len() as int) =~= parts@);
            }
            JsonValue::Text(out)
        },
        HiveValueData::Dword(x) => JsonValue::Uint(*x as u64),
        HiveValueData::Qword(x) => JsonValue::Uint(*x),
        HiveValueData::Binary(b) => JsonValue::Text(b64url_encode(b.as_slice())),
        HiveValueData::Unsupported { bytes, error } => {
            let mut out = String::from_str("{\"DataString\":\"");
            out.append(utf8_lossy_clean(bytes).as_str());
            out.append("\", \"DataBase64\":\"");
            out.append(b64url_encode(bytes.as_slice()).as_str());
            out.append("\", \"Error\":\"");
            out.append(error.as_str());
            out.append("\"}");
            assert(out@ =~= unsupported_value_text(bytes@, error@));
            JsonValue::Text(out)
        },
        HiveValueData::ReadError(e) => JsonValue::Text(e.clone()),
        HiveValueData::Other => JsonValue::Null,
    }
}

/// The row object of a registry key itself: its path, its stamp as the
/// canonical UTC text, and its class when it has one.
pub fn hive_key_object(path: &str, date: &str, class_name: &Option<String>) -> (r: JsonValue)
    ensures
        r matches JsonValue::Object(e) && ({
            &&& class_name is Some ==> e@.len() == 3 && e@[2].0@ == "Class"@ && (e@[2].1 matches
                JsonValue::Text(c) && c@ == class_name.unwrap()@)
            &&& class_name is None ==> e@.len() == 2
            &&& e@[0].0@ == "Path"@ && (e@[0].1 matches JsonValue::Text(p) && p@ == path@)
            &&& e@[1].0@ == "TimeStamp"@ && (e@[1].1 matches JsonValue::Text(d) && d@ == date@)
        }),
{
    let mut entries: Vec<(String, JsonValue)> = Vec::new();
    entries.push((String::from_str("Path"), JsonValue::Text(path.to_owned())));
    entries.push((String::from_str("TimeStamp"), JsonValue::Text(date.to_owned())));
    if let Some(class) = class_name {
        entries.push((String::from_str("Class"), JsonValue::Text(class.clone())));
    }
    JsonValue::Object(entries)
}

/// The row object of one value under a key: the value's own path, the key's
/// stamp and class, and the decoded value.
pub fn hive_value_object(
    path: &str,
    date: &str,
    class_name: &Option<String>,
    value: JsonValue,
) -> (r: JsonValue)
    ensures
        r matches JsonValue::Object(e) && ({
            let vi = if class_name is Some {
                3int
            } else {
                2int
            };
            &&& class_name is Some ==> e@.len() == 4 && e@[2].0@ == "Class"@ && (e@[2].1 matches
                JsonValue::Text(c) && c@ == class_name.unwrap()@)
            &&& class_name is None ==> e@.len() == 3
            &&& e@[0].0@ == "Path"@ && (e@[0].1 matches JsonValue::Text(p) && p@ == path@)
            &&& e@[1].0@ == "TimeStamp"@ && (e@[1].1 matches JsonValue::Text(d) && d@ == date@)
            &&& e@[vi].0@ == "Value"@ && e@[vi].1 == value
        }),
{
    let mut entries: Vec<(String, JsonValue)> = Vec::new();
    entries.push((String::from_str("Path"), JsonValue::Text(path.to_owned())));
    entries.push((String::from_str("TimeStamp"), JsonValue::Text(date.to_owned())));
    if let Some(class) = class_name {
        entries.push((String::from_str("Class"), JsonValue::Text(class.clone())));
    }
    entries.push((String::from_str("Value"), value));
    JsonValue::Object(entries)
}

/// How many rows the walk of one key's subtree emits, the key's own row not
/// counted: one row per subkey, one per value, recursively.
pub open spec fn spec_row_count(key: HiveKey) -> nat
    decreases key,
{
    spec_rows_of(key.subkeys@)
}

/// The rows of a run of subkeys.
pub open spec fn spec_rows_of(keys: Seq<HiveKey>) -> nat
    decreases keys,
{
    if keys.len() == 0 {
        0
    } else {
        spec_rows_of(keys.drop_last()) + 1 + keys.last().values@.len() + spec_rows_of(
            keys.last().subkeys@,
        )
    }
}

/// Walk the subkeys of one key: for each subkey, in order, one row for the
/// key itself, one row per value under it, then its own subkeys, each row's
/// path growing by a backslash-joined segment, each row sorted by the
/// subkey's stamp in whole unix seconds. An empty value name becomes
/// `Default`.
#[verifier::loop_isolation(false)]
pub fn parse_subkey<W: OutputWriter>(
    key: &HiveKey,
    path: &str,
    fields: &Fields,
    output: &mut Output<W>,
) -> (r: Result<(), Error>)
    ensures
        r is Ok ==> final(output).num_rows == old(output).num_rows + spec_row_count(*key),
    decreases *key,
{
    let ghost base = output.num_rows;
    let mut i: usize = 0;
    while i < key.subkeys.len()
        invariant
            i <= key.subkeys@.len(),
            output.num_rows == base + spec_rows_of(key.subkeys@.take(i as int)),
        decreases key.subkeys.len() - i,
    {
        proof {
            assert(decreases_to!(*key => key.subkeys));
            assert(decreases_to!(key.subkeys => key.subkeys@));
            assert(decreases_to!(key.subkeys@ => key.subkeys@[i as int]));
        }
        let sub = &key.subkeys[i];

        let mut sub_path = path.to_owned();
        push_char(&mut sub_path, '\\');
        sub_path.append(sub.name.as_str());

        let millis = filetime_to_unix_millis(sub.timestamp);
        let secs = filetime_to_unix_secs(sub.timestamp);
        let date = format_utc_millis(millis);

        // the subkey's own row
        let key_obj = hive_key_object(sub_path.as_str(), date.as_str(), &sub.class_name);
        let mut tuple = Tuple::new(fields);
        if let Err(e) = tuple.set_data(key_obj, Some(secs)) {
            return Err(e);
        }
        if output.num_rows() == usize::MAX {
            return Err(Error::Generic(String::from_str("row count overflow")));
        }
        if let Err(e) = output.write(&tuple) {
            return Err(e);
        }

        // one row per value under the subkey
        let mut j: usize = 0;
        while j < sub.values.len()
            invariant
                j <= sub.values@.len(),
                output.num_rows == base + spec_rows_of(key.subkeys@.take(i as int)) + 1 + j,
            decreases sub.values.len() - j,
        {
            let val = &sub.values[j];
            let mut value_path = sub_path.clone();
            push_char(&mut value_path, '\\');
            if val.name.as_str().unicode_len() == 0 {
                value_path.append("Default");
            } else {
                value_path.append(val.name.as_str());
            }
            let value_json = parse_key_value(&val.data);
            let val_obj = hive_value_object(
                value_path.as_str(),
                date.as_str(),
                &sub.class_name,
                value_json,
            );
            let mut vtuple = Tuple::new(fields);
            if let Err(e) = vtuple.set_data(val_obj, Some(secs)) {
                return Err(e);
            }
            if output.num_rows() == usize::MAX {
                return Err(Error::Generic(String::from_str("row count overflow")));
            }
            if let Err(e) = output.write(&vtuple) {
                return Err(e);
            }
            j = j + 1;
        }

        // then the subkey's own subtree
        if let Err(e) = parse_subkey(sub, sub_path.as_str(), fields, output) {
            return Err(e);
        }
        proof {
            let t = key.subkeys@.take(i + 1);
            assert(t.drop_last() =~= key.subkeys@.take(i as int));
            assert(t.last() == key.subkeys@[i as int]);
        }
        i = i + 1;
    }
    proof {
        assert(key.subkeys@.take(key.subkeys@.len() as int) =~= key.subkeys@);
    }
    Ok(())
}

/// Decode one extracted registry hive: walk every key under the root, with
/// paths growing from the caller's root name, and write one envelope per
/// key and per value to the fan-out; the row count comes back.
pub fn parse_hive<W: OutputWriter>(
    root: &HiveKey,
    root_name: &str,
    fields: &Fields,
    output: &mut Output<W>,
) -> (r: Result<usize, Error>)
    requires
        old(output).num_rows == 0,
    ensures
        r matches Ok(n) ==> n == spec_row_count(*root),
{
    match parse_subkey(root, root_name, fields, output) {
        Ok(()) => Ok(output.num_rows()),
        Err(e) => Err(e),
    }
}

} // verus!
