use vstd::prelude::*;

use crate::b64::{b64url_encode, b64url_of};
use crate::dates::millis_to_secs_floor;
use crate::errors::Error;
use crate::input::hive::{lossy_clean, utf8_lossy_clean};
use crate::input::srum_model::{srum_tables, ID_MAP_TABLE, SRUM_SORT_FIELD};
use crate::json::{obj_insert, JsonValue};
use crate::output::{Fields, Output, OutputWriter, Tuple};
use crate::text::{dec_u64_str, push_char, push_u64_dec, str_eq};
use libesedb::Value::{
    Binary, Bool, Currency, DateTime, Guid, LargeBinary, LargeText, SuperLarge, Text, I16, I32,
    I64, U16, U32, U8,
};

verus! {

#[verifier::external_type_specification]
#[verifier::external_body]
pub struct ExEseDb(libesedb::EseDb);

#[verifier::external_type_specification]
#[verifier::external_body]
pub struct ExEseRawValue(libesedb::Value);

// ------------------------------------------------------------------
// Windows security identifiers.
// ------------------------------------------------------------------

/// The 48-bit big-endian identifier authority of a binary SID.
pub open spec fn sid_id_auth(b: Seq<u8>) -> u64 {
    ((b[2] as u64) << 40) | ((b[3] as u64) << 32) | ((b[4] as u64) << 24) | ((b[5] as u64) << 16)
        | ((b[6] as u64) << 8) | (b[7] as u64)
}

/// The `k`-th 32-bit little-endian subauthority, starting at offset 8.
pub open spec fn sid_subauth(b: Seq<u8>, k: int) -> u32 {
    let o = 8 + 4 * k;
    (b[o] as u32) | ((b[o + 1] as u32) << 8) | ((b[o + 2] as u32) << 16) | ((b[o + 3] as u32)
        << 24)
}

/// The dash-joined decimal subauthorities, one per count.
pub open spec fn sid_subs_text(b: Seq<u8>, n: int) -> Seq<char>
    decreases n,
{
    if n <= 0 {
        Seq::empty()
    } else {
        sid_subs_text(b, n - 1) + seq!['-'] + dec_u64_str(sid_subauth(b, n - 1) as nat)
    }
}

/// The standard text of a binary SID: `S-<rev>-<idauth>-<sub0>-<sub1>-…`,
/// the revision read from byte 0.
pub open spec fn sid_text(b: Seq<u8>) -> Seq<char> {
    "S-"@ + dec_u64_str(b[0] as nat) + seq!['-'] + dec_u64_str(sid_id_auth(b) as nat)
        + sid_subs_text(b, b[1] as int)
}

/// Render a binary Windows security identifier: the first byte is the
/// revision, the second counts the subauthorities, the identifier authority
/// is read big-endian from bytes two to seven, and each subauthority
/// little-endian from offset eight on.
#[verifier::loop_isolation(false)]
pub fn convert_sid(b_sid: &[u8]) -> (r: String)
    requires
        b_sid@.len() >= 8 + 4 * (b_sid@[1] as int),
    ensures
        r@ == sid_text(b_sid@),
{
    proof {
        reveal_strlit("S-");
    }
    let mut sid = String::new();
    sid.append("S-");
    push_u64_dec(b_sid[0] as u64, &mut sid);
    push_char(&mut sid, '-');
    let count = b_sid[1];
    let id_auth: u64 = ((b_sid[2] as u64) << 40) | ((b_sid[3] as u64) << 32) | ((b_sid[4] as u64)
        << 24) | ((b_sid[5] as u64) << 16) | ((b_sid[6] as u64) << 8) | (b_sid[7] as u64);
    push_u64_dec(id_auth, &mut sid);
    let mut k: usize = 0;
    while k < count as usize
        invariant
            k <= count as usize,
            sid@ == "S-"@ + dec_u64_str(b_sid@[0] as nat) + seq!['-'] + dec_u64_str(
                sid_id_auth(b_sid@) as nat,
            ) + sid_subs_text(b_sid@, k as int),
        decreases count as usize - k,
    {
        push_char(&mut sid, '-');
        let o: usize = 8 + 4 * k;
        let sub: u32 = (b_sid[o] as u32) | ((b_sid[o + 1] as u32) << 8) | ((b_sid[o + 2] as u32)
            << 16) | ((b_sid[o + 3] as u32) << 24);
        assert(sub == sid_subauth(b_sid@, k as int));
        push_u64_dec(sub as u64, &mut sid);
        assert(sid@ =~= "S-"@ + dec_u64_str(b_sid@[0] as nat) + seq!['-'] + dec_u64_str(
            sid_id_auth(b_sid@) as nat,
        ) + sid_subs_text(b_sid@, k + 1));
        k = k + 1;
    }
    sid
}

// ------------------------------------------------------------------
// The string index the AppId and UserId columns reference.
// ------------------------------------------------------------------

/// Whether an index row carries all three parts.
pub open spec fn id_row_complete(row: (Option<u32>, Option<i32>, Option<Vec<u8>>)) -> bool {
    row.0 is Some && row.1 is Some && row.2 is Some
}

/// The text an index row maps its key to: a type-3 blob of a well-formed
/// length decodes as a SID; anything else is its lossy clean text.
pub open spec fn id_row_text(row: (Option<u32>, Option<i32>, Option<Vec<u8>>)) -> Seq<char> {
    let blob = row.2.unwrap()@;
    if row.0.unwrap() == 3 && blob.len() >= 8 && blob.len() >= 8 + 4 * (blob[1] as int) {
        sid_text(blob)
    } else {
        lossy_clean(blob)
    }
}

/// The indices of the complete rows, in order.
pub open spec fn complete_rows(rows: Seq<(Option<u32>, Option<i32>, Option<Vec<u8>>)>) -> Seq<int>
    decreases rows.len(),
{
    if rows.len() == 0 {
        Seq::empty()
    } else if id_row_complete(rows.last()) {
        complete_rows(rows.drop_last()).push(rows.len() - 1)
    } else {
        complete_rows(rows.drop_last())
    }
}

/// Build the in-memory string index from the raw id-map rows: one entry per
/// complete row, in order, keyed by the row's 32-bit index.
#[verifier::loop_isolation(false)]
pub fn build_string_index(rows: &Vec<(Option<u32>, Option<i32>, Option<Vec<u8>>)>) -> (r: Vec<
    (i32, String),
>)
    ensures
        r@.len() == complete_rows(rows@).len(),
        forall|k: int|
            0 <= k < r@.len() ==> (#[trigger] r@[k]).0 == rows@[complete_rows(rows@)[k]].1.unwrap()
                && r@[k].1@ == id_row_text(rows@[complete_rows(rows@)[k]]),
{
    let mut index: Vec<(i32, String)> = Vec::new();
    let mut i: usize = 0;
    while i < rows.len()
        invariant
            i <= rows@.len(),
            index@.len() == complete_rows(rows@.take(i as int)).len(),
            forall|k: int|
                0 <= k < index@.len() ==> (#[trigger] index@[k]).0 == rows@[complete_rows(
                    rows@.take(i as int),
                )[k]].1.unwrap() && index@[k].1@ == id_row_text(
                    rows@[complete_rows(rows@.take(i as int))[k]],
                ),
            forall|k: int|
                0 <= k < complete_rows(rows@.take(i as int)).len() ==> 0 <= #[trigger] complete_rows(
                    rows@.take(i as int),
                )[k] < i,
        decreases rows.len() - i,
    {
        proof {
            let t = rows@.take(i + 1);
            assert(t.drop_last() =~= rows@.take(i as int));
            assert(t.last() == rows@[i as int]);
        }
        let row = &rows[i];
        if row.0.is_some() && row.1.is_some() && row.2.is_some() {
            let id_type = row.0.unwrap();
            let id_index = row.1.unwrap();
            let blob = row.2.as_ref().unwrap();
            let value: String = if id_type == 3 && blob.len() >= 8 && (blob.len() - 8) / 4
                >= blob[1] as usize {
                assert(blob@.len() >= 8 + 4 * (blob@[1] as int));
                convert_sid(blob.as_slice())
            } else {
                utf8_lossy_clean(blob)
            };
            index.push((id_index, value));
        }
        i = i + 1;
    }
    proof {
        assert(rows@.take(rows@.len() as int) =~= rows@);
    }
    index
}

/// The value of the last index entry with this key, if any: a later row
/// with the same key replaces an earlier one.
pub open spec fn index_lookup(entries: Seq<(i32, String)>, key: i32) -> Option<String>
    decreases entries.len(),
{
    if entries.len() == 0 {
        None
    } else if entries.last().0 == key {
        Some(entries.last().1)
    } else {
        index_lookup(entries.drop_last(), key)
    }
}

/// Look a key up in the string index.
#[verifier::loop_isolation(false)]
pub fn lookup_index(entries: &Vec<(i32, String)>, key: i32) -> (r: Option<&String>)
    ensures
        r is Some <==> index_lookup(entries@, key) is Some,
        r matches Some(s) ==> Some(*s) == index_lookup(entries@, key),
{
    proof {
        assert(entries@.take(entries@.len() as int) =~= entries@);
    }
    let mut i: usize = entries.len();
    while i > 0
        invariant
            i <= entries@.len(),
            index_lookup(entries@, key) == index_lookup(entries@.take(i as int), key),
        decreases i,
    {
        i = i - 1;
        proof {
            let t = entries@.take(i + 1);
            assert(t.drop_last() =~= entries@.take(i as int));
            assert(t.last() == entries@[i as int]);
        }
        if entries[i].0 == key {
            return Some(&entries[i].1);
        }
    }
    proof {
        assert(entries@.take(0) =~= Seq::<(i32, String)>::empty());
    }
    None
}

// ------------------------------------------------------------------
// Raw column values, as plain data.
// ------------------------------------------------------------------

/// One raw column value of a row, as plain data. A float carries its
/// widened 64-bit pattern and its JSON text, absent when non-finite; a
/// native date carries its raw FILETIME.
pub enum EseValue {
    Null,
    Bool(bool),
    U8(u8),
    I16(i16),
    I32(i32),
    U16(u16),
    U32(u32),
    I64(i64),
    Float { bits: u64, repr: Option<String> },
    DateTime(u64),
    Text(String),
    Binary(Vec<u8>),
}

/// How one raw column value appears in the row object: booleans as the
/// words `true`/`false` in a JSON string, integers as numbers, a native
/// date as its raw count, binary kinds as unpadded URL-safe base64, a
/// non-finite float as null.
pub open spec fn ese_value_ok(d: EseValue, v: JsonValue) -> bool {
    match d {
        EseValue::Null => v is Null,
        EseValue::Bool(b) => v matches JsonValue::Text(t) && t@ == (if b {
            "true"@
        } else {
            "false"@
        }),
        EseValue::U8(x) => v == JsonValue::Uint(x as u64),
        EseValue::I16(x) => v == JsonValue::Int(x as i64),
        EseValue::I32(x) => v == JsonValue::Int(x as i64),
        EseValue::U16(x) => v == JsonValue::Uint(x as u64),
        EseValue::U32(x) => v == JsonValue::Uint(x as u64),
        EseValue::I64(x) => v == JsonValue::Int(x),
        EseValue::Float { bits, repr } => match repr {
            Some(t) => v matches JsonValue::Float { bits: b2, repr: r2 } && b2 == bits && r2@
                == t@,
            None => v is Null,
        },
        EseValue::DateTime(x) => v == JsonValue::Uint(x),
        EseValue::Text(s) => v matches JsonValue::Text(t) && t@ == s@,
        EseValue::Binary(b) => v matches JsonValue::Text(t) && t@ == b64url_of(b@),
    }
}

/// Turn one raw column value into its JSON form.
pub fn ese_to_json(d: EseValue) -> (r: JsonValue)
    ensures
        ese_value_ok(d, r),
{
    match d {
        EseValue::Null => JsonValue::Null,
        EseValue::Bool(b) => JsonValue::Text(
            if b {
                String::from_str("true")
            } else {
                String::from_str("false")
            },
        ),
        EseValue::U8(x) => JsonValue::Uint(x as u64),
        EseValue::I16(x) => JsonValue::Int(x as i64),
        EseValue::I32(x) => JsonValue::Int(x as i64),
        EseValue::U16(x) => JsonValue::Uint(x as u64),
        EseValue::U32(x) => JsonValue::Uint(x as u64),
        EseValue::I64(x) => JsonValue::Int(x),
        EseValue::Float { bits, repr } => match repr {
            Some(t) => JsonValue::Float { bits, repr: t },
            None => JsonValue::Null,
        },
        EseValue::DateTime(x) => JsonValue::Uint(x),
        EseValue::Text(s) => JsonValue::Text(s),
        EseValue::Binary(b) => JsonValue::Text(b64url_encode(b.as_slice())),
    }
}

// ------------------------------------------------------------------
// Trusted bridge to the database reader.
// ------------------------------------------------------------------

/// Relies on libesedb::EseDb::open; what comes back depends on the disk.
#[verifier::external_body]
fn open_db(path: &str) -> (r: Result<libesedb::EseDb, Error>) {
    libesedb::EseDb::open(path).map_err(|e| Error::Decoder(e.to_string()))
}

/// Relies on libesedb's table and record readers: every row of the id-map
/// table, each as its first three column values, converted but unfiltered.
/// What comes back depends on the disk.
#[verifier::external_body]
fn read_id_map_rows(db: &libesedb::EseDb) -> (r: Result<
    Vec<(Option<u32>, Option<i32>, Option<Vec<u8>>)>,
    Error,
>) {
    let de = |e: std::io::Error| Error::Decoder(e.to_string());
    let table = db.table_by_name(ID_MAP_TABLE).map_err(de)?;
    let mut rows = Vec::new();
    for rec in table.iter_records().map_err(de)? {
        let rec = rec.map_err(de)?;
        let blob = rec.value(2).map_err(de)?.as_bytes().map(|b| b.to_vec());
        rows.push((rec.value(0).map_err(de)?.to_u32(), rec.value(1).map_err(de)?.to_i32(), blob));
    }
    Ok(rows)
}

/// Relies on libesedb's column reader: the column names of one table, in
/// order. What comes back depends on the disk.
#[verifier::external_body]
fn table_column_names(db: &libesedb::EseDb, name: &str) -> (r: Result<Vec<String>, Error>) {
    let de = |e: std::io::Error| Error::Decoder(e.to_string());
    let table = db.table_by_name(name).map_err(de)?;
    let mut cols = Vec::new();
    for col in table.iter_columns().map_err(de)? {
        cols.push(col.map_err(de)?.name().map_err(de)?);
    }
    Ok(cols)
}

/// Relies on libesedb's record reader: every row of one table, each as its
/// raw column values. What comes back depends on the disk.
#[verifier::external_body]
fn table_rows(db: &libesedb::EseDb, name: &str) -> (r: Result<Vec<Vec<libesedb::Value>>, Error>) {
    let de = |e: std::io::Error| Error::Decoder(e.to_string());
    let table = db.table_by_name(name).map_err(de)?;
    let mut rows = Vec::new();
    for rec in table.iter_records().map_err(de)? {
        let vals: Result<Vec<_>, _> = rec.map_err(de)?.iter_values().map_err(de)?.collect();
        rows.push(vals.map_err(de)?);
    }
    Ok(rows)
}

/// Relies on libesedb's float variants: the value widened to 64 bits, with
/// its serde_json number text, absent when the value is not finite.
#[verifier::external_body]
fn raw_float_to_ese(v: &libesedb::Value) -> (r: EseValue) {
    let w = match v {
        libesedb::Value::F32(x) => (*x).into(),
        libesedb::Value::F64(x) => *x,
        _ => return EseValue::Null,
    };
    let repr = serde_json::Number::from_f64(w).map(|n| n.to_string());
    EseValue::Float { bits: w.to_bits(), repr }
}

/// Relies on libesedb's value variants: one raw value as plain data, one
/// arm per variant, moving the carried value.
#[verifier::external_body]
fn raw_to_ese(v: &libesedb::Value) -> (r: EseValue) {
    match v {
        Bool(b) => EseValue::Bool(*b), U8(x) => EseValue::U8(*x), I16(x) => EseValue::I16(*x),
        I32(x) => EseValue::I32(*x), U16(x) => EseValue::U16(*x), U32(x) => EseValue::U32(*x),
        I64(x) | Currency(x) => EseValue::I64(*x), DateTime(x) => EseValue::DateTime(*x),
        libesedb::Value::F32(_) | libesedb::Value::F64(_) => raw_float_to_ese(v),
        Text(s) | LargeText(s) => EseValue::Text(s.clone()),
        Binary(b) | LargeBinary(b) | Guid(b) | SuperLarge(b) => EseValue::Binary(b.clone()),
        _ => EseValue::Null,
    }
}

/// Relies on libesedb's to_i32 cast: the row's 32-bit key into the string
/// index, when the value carries one.
#[verifier::external_body]
fn raw_to_index_key(v: &libesedb::Value) -> (r: Option<i32>) {
    v.to_i32()
}

/// Relies on libesedb's time conversions and chrono: a date column read
/// from an OLE fraction, a native datetime, or a 64-bit FILETIME, as
/// unix-epoch milliseconds and the canonical UTC text.
#[verifier::external_body]
fn raw_to_date(v: &libesedb::Value) -> (r: Option<(i64, String)>) {
    let systime = match v {
        libesedb::Value::F64(e) => libesedb::systemtime_from_oletime(*e),
        libesedb::Value::DateTime(_) => v.to_oletime()?,
        libesedb::Value::I64(e) => libesedb::systemtime_from_filetime(*e as u64),
        _ => return None,
    };
    let dt: chrono::DateTime<chrono::Utc> = systime.into();
    Some((dt.timestamp_millis(), dt.format(crate::dates::OUTPUT_DATE_FORMAT_UTC).to_string()))
}

// ------------------------------------------------------------------
// The decoder itself.
// ------------------------------------------------------------------

/// The semantic class of a column, decided by its name.
#[derive(PartialEq, Eq, Structural)]
pub enum SrumDataType {
    String,
    Date,
    Data,
}

/// Which class a column belongs to: the stamp columns are dates, the
/// identity columns are indexed strings, everything else is raw data.
pub open spec fn spec_column_type(name: Seq<char>) -> SrumDataType {
    if name == "TimeStamp"@ || name == "ConnectStartTime"@ {
        SrumDataType::Date
    } else if name == "AppId"@ || name == "UserId"@ {
        SrumDataType::String
    } else {
        SrumDataType::Data
    }
}

/// Classify one column by its name.
pub fn column_type(column_name: &str) -> (r: SrumDataType)
    ensures
        r == spec_column_type(column_name@),
{
    proof {
        reveal_strlit("TimeStamp");
        reveal_strlit("AppId");
        reveal_strlit("UserId");
        reveal_strlit("ConnectStartTime");
        assert("TimeStamp"@.len() == 9);
        assert("AppId"@.len() == 5);
        assert("UserId"@.len() == 6);
        assert("ConnectStartTime"@.len() == 16);
    }
    if str_eq(column_name, "TimeStamp") {
        SrumDataType::Date
    } else if str_eq(column_name, "AppId") {
        SrumDataType::String
    } else if str_eq(column_name, "UserId") {
        SrumDataType::String
    } else if str_eq(column_name, "ConnectStartTime") {
        SrumDataType::Date
    } else {
        SrumDataType::Data
    }
}

/// A SRUM database, opened with its string index fully read.
pub struct SrumParser {
    db: libesedb::EseDb,
    index: Vec<(i32, String)>,
}

impl SrumParser {
    /// Relies on nothing beyond its parts: open the database and read the
    /// id-map table into the in-memory string index.
    pub fn new(path: &str) -> (r: Result<SrumParser, Error>) {
        let db = match open_db(path) {
            Ok(db) => db,
            Err(e) => return Err(e),
        };
        let rows = match read_id_map_rows(&db) {
            Ok(rows) => rows,
            Err(e) => return Err(e),
        };
        let index = build_string_index(&rows);
        Ok(SrumParser { db, index })
    }

    /// The number of entries in the string index.
    pub fn index_len(&self) -> usize {
        self.index.len()
    }

    /// Decode every row of one table and write one envelope per row; a row
    /// wider than the column catalog is refused. The sort key is the whole
    /// seconds of the row's `TimeStamp` column when it holds a date.
    #[verifier::loop_isolation(false)]
    pub fn write_table_rows<W: OutputWriter>(
        &self,
        columns: &Vec<String>,
        rows: &Vec<Vec<libesedb::Value>>,
        fields: &Fields,
        output: &mut Output<W>,
    ) -> (r: Result<(), Error>)
        ensures
            r is Ok ==> final(output).num_rows == old(output).num_rows + rows@.len(),
            final(output).num_rows >= old(output).num_rows,
    {
        let ghost base = output.num_rows;
        let mut i: usize = 0;
        while i < rows.len()
            invariant
                i <= rows@.len(),
                output.num_rows == base + i,
            decreases rows.len() - i,
        {
            let row = &rows[i];
            if row.len() > columns.len() {
                return Err(Error::Decoder(String::from_str("row wider than column catalog")));
            }
            let mut entries: Vec<(String, JsonValue)> = Vec::new();
            let mut sort_data: Option<i64> = None;
            let mut pos: usize = 0;
            while pos < row.len()
                invariant
                    pos <= row@.len(),
                    row@.len() <= columns@.len(),
                decreases row.len() - pos,
            {
                let column_name = &columns[pos];
                let value: JsonValue = match column_type(column_name.as_str()) {
                    SrumDataType::String => {
                        match raw_to_index_key(&row[pos]) {
                            Some(key) => match lookup_index(&self.index, key) {
                                Some(s) => JsonValue::Text(s.clone()),
                                None => JsonValue::Null,
                            },
                            None => JsonValue::Null,
                        }
                    },
                    SrumDataType::Date => {
                        match raw_to_date(&row[pos]) {
                            Some((millis, text)) => {
                                if str_eq(column_name.as_str(), SRUM_SORT_FIELD) {
                                    sort_data = Some(millis_to_secs_floor(millis));
                                }
                                JsonValue::Text(text)
                            },
                            None => JsonValue::Null,
                        }
                    },
                    SrumDataType::Data => ese_to_json(raw_to_ese(&row[pos])),
                };
                obj_insert(&mut entries, column_name.clone(), value);
                pos = pos + 1;
            }
            let mut tuple = Tuple::new(fields);
            if let Err(e) = tuple.set_data(JsonValue::Object(entries), sort_data) {
                return Err(e);
            }
            if output.num_rows() == usize::MAX {
                return Err(Error::Generic(String::from_str("row count overflow")));
            }
            if let Err(e) = output.write(&tuple) {
                return Err(e);
            }
            i = i + 1;
        }
        Ok(())
    }

    /// Decode one table by name into the given fan-out. What the table
    /// holds depends on the disk, so the row count cannot be pinned here;
    /// whatever comes back, the fan-out's row count never shrinks, and
    /// `write_table_rows` accounts for every row that was read.
    pub fn parse_table<W: OutputWriter>(
        &self,
        table_name: &str,
        output: &mut Output<W>,
        fields: &Fields,
    ) -> (r: Result<(), Error>)
        ensures
            final(output).num_rows >= old(output).num_rows,
    {
        let columns = match table_column_names(&self.db, table_name) {
            Ok(c) => c,
            Err(e) => return Err(e),
        };
        let rows = match table_rows(&self.db, table_name) {
            Ok(r) => r,
            Err(e) => return Err(e),
        };
        self.write_table_rows(&columns, &rows, fields, output)
    }

    /// Decode all ten known tables, each into its own fresh fan-out, in
    /// catalog order, best effort: a failing table leaves its rows behind
    /// and the others still run. The result is the number of rows the ten
    /// fan-outs accepted, saturating at the counter's ceiling.
    #[verifier::loop_isolation(false)]
    pub fn parse_all_tables<W: OutputWriter>(
        &self,
        fields: &Fields,
        outputs: &mut Vec<Output<W>>,
    ) -> (r: usize)
        requires
            old(outputs)@.len() == 10,
            forall|k: int| 0 <= k < 10 ==> (#[trigger] old(outputs)@[k]).num_rows == 0,
        ensures
            final(outputs)@.len() == 10,
            r == sat_usize(total_rows(final(outputs)@)),
    {
        let tables = srum_tables();
        let mut done: Vec<Output<W>> = Vec::new();
        let mut num_rows: usize = 0;
        let mut i: usize = 0;
        proof {
            lemma_total_rows_nonneg(done@);
        }
        while i < tables.len()
            invariant
                i <= tables@.len(),
                tables@.len() == 10,
                outputs@.len() + done@.len() == 10,
                outputs@.len() == 10 - i,
                done@.len() == i,
                num_rows == sat_usize(total_rows(done@)),
            decreases tables.len() - i,
        {
            let mut output = outputs.remove(0);
            // a failing table is reported by its row count alone
            let _ = self.parse_table(tables[i].name, &mut output, fields);
            let n = output.num_rows();
            num_rows = if usize::MAX - num_rows >= n {
                num_rows + n
            } else {
                usize::MAX
            };
            let ghost dprev = done@;
            done.push(output);
            proof {
                assert(done@.drop_last() =~= dprev);
                lemma_total_rows_nonneg(dprev);
                assert(total_rows(done@) == total_rows(dprev) + n);
            }
            i = i + 1;
        }
        // hand the fan-outs back in their original order
        let ghost dfull = done@;
        while done.len() > 0
            invariant
                dfull =~= outputs@ + done@,
            decreases done.len(),
        {
            let ghost oprev = outputs@;
            let ghost dprev = done@;
            let o = done.remove(0);
            outputs.push(o);
            proof {
                assert(oprev + dprev =~= outputs@ + done@);
            }
        }
        proof {
            assert(outputs@ =~= dfull);
        }
        num_rows
    }
}

/// The rows the fan-outs of a run have accepted, summed.
pub open spec fn total_rows<W: OutputWriter>(outs: Seq<Output<W>>) -> int
    decreases outs.len(),
{
    if outs.len() == 0 {
        0
    } else {
        total_rows(outs.drop_last()) + outs.last().num_rows
    }
}

/// A sum of row counters is never negative.
pub proof fn lemma_total_rows_nonneg<W: OutputWriter>(outs: Seq<Output<W>>)
    ensures
        total_rows(outs) >= 0,
    decreases outs.len(),
{
    if outs.len() > 0 {
        lemma_total_rows_nonneg(outs.drop_last());
    }
}

/// A count clipped to what a machine counter can hold.
pub open spec fn sat_usize(x: int) -> int {
    if x <= usize::MAX as int {
        x
    } else {
        usize::MAX as int
    }
}

} // verus!
