use vstd::prelude::*;
use vstd::utf8::encode_utf8;

use crate::b64::{b64url_of, b64url_encode};
use crate::dates::{now_utc, utc_datetime_str};
use crate::errors::Error;
use crate::hashes::{blake3_of, blake3_hash, hash_source_key, source_key_hash};
use crate::json::{canon_bytes, canon_into, json_text, le8, push_json, push_quoted, quote_str, JsonValue};
use crate::text::push_char;

verus! {

/// The first eight entries of a byte sequence, one by one, so that the
/// length of the result does not depend on the length of the argument.
pub open spec fn first8(s: Seq<u8>) -> Seq<u8> {
    seq![s[0], s[1], s[2], s[3], s[4], s[5], s[6], s[7]]
}

/// The first sixteen entries of a byte sequence.
pub open spec fn first16(s: Seq<u8>) -> Seq<u8> {
    first8(s) + seq![s[8], s[9], s[10], s[11], s[12], s[13], s[14], s[15]]
}

/// The sixteen identifier bytes of an envelope: the BLAKE3 digest of the
/// canonical bytes of `data` followed by the UTF-8 bytes of `computer` and
/// `original_file`; when a sort key is set, the digest's first eight bytes
/// are prefixed with the key's little-endian encoding, otherwise the first
/// sixteen digest bytes stand alone.
pub open spec fn spec_uid_bytes(
    data: JsonValue,
    computer: Seq<char>,
    original: Seq<char>,
    sort_data: Option<i64>,
) -> Seq<u8> {
    let digest = blake3_of(canon_bytes(data) + encode_utf8(computer) + encode_utf8(original));
    match sort_data {
        Some(sd) => le8(sd as u64) + first8(digest),
        None => first16(digest),
    }
}

/// The record identifier: the sixteen identifier bytes in unpadded URL-safe
/// base64, 22 characters.
pub open spec fn spec_id(
    data: JsonValue,
    computer: Seq<char>,
    original: Seq<char>,
    sort_data: Option<i64>,
) -> Seq<char> {
    b64url_of(spec_uid_bytes(data, computer, original, sort_data))
}

/// The identifier bytes always number sixteen and, when the sort key is
/// set, open with exactly its little-endian encoding, so the key can be
/// read back from the decoded identifier.
pub proof fn lemma_uid_sort_prefix(
    data: JsonValue,
    computer: Seq<char>,
    original: Seq<char>,
    sd: i64,
)
    ensures
        spec_uid_bytes(data, computer, original, Some(sd)).len() == 16,
        spec_uid_bytes(data, computer, original, Some(sd)).take(8) == le8(sd as u64),
{
    let uid = spec_uid_bytes(data, computer, original, Some(sd));
    assert(uid.take(8) =~= le8(sd as u64));
}

/// The identifier is a function of `data`, `computer`, `original_file` and
/// `sort_data` alone: the same four inputs give the same identifier, in any
/// run and on any machine, and nothing else enters it.
pub proof fn lemma_id_deterministic(
    data1: JsonValue,
    computer1: Seq<char>,
    original1: Seq<char>,
    sort1: Option<i64>,
    data2: JsonValue,
    computer2: Seq<char>,
    original2: Seq<char>,
    sort2: Option<i64>,
)
    requires
        data1 == data2,
        computer1 == computer2,
        original1 == original2,
        sort1 == sort2,
    ensures
        spec_id(data1, computer1, original1, sort1) == spec_id(data2, computer2, original2, sort2),
{
}

/// The common topic name, used for file names and bus topics alike.
pub fn full_topic_name(client_context: &str, name: &str) -> (r: String)
    ensures
        r@ == client_context@ + seq!['_'] + name@,
{
    let mut out = client_context.to_owned();
    push_char(&mut out, '_');
    out.append(name);
    assert(out@ =~= client_context@ + seq!['_'] + name@);
    out
}

/// The provenance fields shared by every envelope of one parsed file. The
/// two-byte key routes all records of one `(machine, original file)` pair to
/// one bus partition.
pub struct Fields {
    pub key: [u8; 2],
    pub machine_id: String,
    pub original_file: String,
    pub archive_name: String,
    pub archive_file: String,
}

impl Fields {
    /// Build the shared fields; the key is the first two little-endian bytes
    /// of the 64-bit source hash.
    pub fn new(machine_id: &str, original_file: &str, archive_name: &str, archive_file: &str) -> (r:
        Fields)
        ensures
            r.machine_id@ == machine_id@,
            r.original_file@ == original_file@,
            r.archive_name@ == archive_name@,
            r.archive_file@ == archive_file@,
            r.key@ == le8(source_key_hash(machine_id@, original_file@)).take(2),
    {
        let h = hash_source_key(machine_id, original_file);
        let key: [u8; 2] = [(h & 0xff) as u8, ((h >> 8) & 0xff) as u8];
        let r = Fields {
            key,
            machine_id: machine_id.to_owned(),
            original_file: original_file.to_owned(),
            archive_name: archive_name.to_owned(),
            archive_file: archive_file.to_owned(),
        };
        assert(r.key@ =~= le8(source_key_hash(machine_id@, original_file@)).take(2));
        r
    }
}

/// One record envelope: provenance, the decoded row, and the identifier
/// derived from both.
pub struct Tuple {
    pub key: [u8; 2],
    pub id: String,
    pub import_date_millis: i64,
    pub import_date_text: String,
    pub computer: String,
    pub original_file: String,
    pub archive_name: String,
    pub archive_file: String,
    pub data: Option<JsonValue>,
    pub sort_data: Option<i64>,
}

/// The JSONL serialization of an envelope: the keys `import_date`,
/// `computer`, `original_file`, `archive_name`, `id`, `data`, in that order;
/// a missing `data` serializes as an empty object.
pub open spec fn spec_tuple_json(t: Tuple) -> Seq<char> {
    seq!['{'] + quote_str("import_date"@) + seq![':'] + quote_str(t.import_date_text@) + seq![',']
        + quote_str("computer"@) + seq![':'] + quote_str(t.computer@) + seq![','] + quote_str(
        "original_file"@,
    ) + seq![':'] + quote_str(t.original_file@) + seq![','] + quote_str("archive_name"@) + seq![':']
        + quote_str(t.archive_name@) + seq![','] + quote_str("id"@) + seq![':'] + quote_str(t.id@)
        + seq![','] + quote_str("data"@) + seq![':'] + (match t.data {
        Some(v) => json_text(v),
        None => seq!['{', '}'],
    }) + seq!['}']
}

impl Tuple {
    /// A fresh envelope: provenance copied from the shared fields, the
    /// import date read from the clock, no data and an empty identifier.
    pub fn new(fields: &Fields) -> (r: Tuple)
        ensures
            r.key == fields.key,
            r.id@ == Seq::<char>::empty(),
            r.computer@ == fields.machine_id@,
            r.original_file@ == fields.original_file@,
            r.archive_name@ == fields.archive_name@,
            r.archive_file@ == fields.archive_file@,
            r.data is None,
            r.sort_data is None,
            r.import_date_text@ == utc_datetime_str(r.import_date_millis),
    {
        let (millis, text) = now_utc();
        let r = Tuple {
            key: fields.key,
            id: String::new(),
            import_date_millis: millis,
            import_date_text: text,
            computer: fields.machine_id.clone(),
            original_file: fields.original_file.clone(),
            archive_name: fields.archive_name.clone(),
            archive_file: fields.archive_file.clone(),
            data: None,
            sort_data: None,
        };
        r
    }

    /// Attach the decoded row and derive the identifier. This may happen at
    /// most once, and only with a JSON object: afterwards `data` and
    /// `sort_data` are set and `id` is the derived identifier; on a refusal
    /// the envelope is unchanged.
    pub fn set_data(&mut self, data: JsonValue, sort_data: Option<i64>) -> (r: Result<(), Error>)
        ensures
            old(self).data is Some ==> (r matches Err(Error::DataField))
                && *final(self) == *old(self),
            old(self).data is None && !(data is Object)
                ==> (r matches Err(Error::JsonNotAnObject(f)) && f@ == "data"@)
                && *final(self) == *old(self),
            old(self).data is None && data is Object ==> r is Ok
                && final(self).data == Some(data)
                && final(self).sort_data == sort_data
                && final(self).id@
                    == spec_id(data, old(self).computer@, old(self).original_file@, sort_data)
                && final(self).key == old(self).key
                && final(self).computer == old(self).computer
                && final(self).original_file == old(self).original_file
                && final(self).archive_name == old(self).archive_name
                && final(self).archive_file == old(self).archive_file
                && final(self).import_date_millis == old(self).import_date_millis
                && final(self).import_date_text == old(self).import_date_text,
    {
        if self.data.is_some() {
            return Err(Error::DataField);
        }
        if !(matches!(data, JsonValue::Object(_))) {
            return Err(Error::JsonNotAnObject("data".to_owned()));
        }
        let id = compute_id(&data, self.computer.as_str(), self.original_file.as_str(), &sort_data);
        self.data = Some(data);
        self.sort_data = sort_data;
        self.id = id;
        Ok(())
    }

    /// Serialize the envelope as one JSONL line, without the trailing
    /// newline.
    pub fn to_json_string(&self) -> (r: Result<String, Error>)
        ensures
            r is Ok,
            r matches Ok(s) ==> s@ == spec_tuple_json(*self),
    {
        let mut out = String::new();
        push_char(&mut out, '{');
        push_quoted("import_date", &mut out);
        push_char(&mut out, ':');
        push_quoted(self.import_date_text.as_str(), &mut out);
        push_char(&mut out, ',');
        push_quoted("computer", &mut out);
        push_char(&mut out, ':');
        push_quoted(self.computer.as_str(), &mut out);
        push_char(&mut out, ',');
        push_quoted("original_file", &mut out);
        push_char(&mut out, ':');
        push_quoted(self.original_file.as_str(), &mut out);
        push_char(&mut out, ',');
        push_quoted("archive_name", &mut out);
        push_char(&mut out, ':');
        push_quoted(self.archive_name.as_str(), &mut out);
        push_char(&mut out, ',');
        push_quoted("id", &mut out);
        push_char(&mut out, ':');
        push_quoted(self.id.as_str(), &mut out);
        push_char(&mut out, ',');
        push_quoted("data", &mut out);
        push_char(&mut out, ':');
        match &self.data {
            Some(v) => {
                push_json(v, &mut out);
            },
            None => {
                push_char(&mut out, '{');
                push_char(&mut out, '}');
            },
        }
        push_char(&mut out, '}');
        assert(out@ =~= spec_tuple_json(*self));
        Ok(out)
    }
}

/// Derive the identifier from the decoded row and the provenance strings.
fn compute_id(data: &JsonValue, computer: &str, original: &str, sort_data: &Option<i64>) -> (r:
    String)
    ensures
        r@ == spec_id(*data, computer@, original@, *sort_data),
{
    let mut buffer: Vec<u8> = Vec::new();
    canon_into(data, &mut buffer);
    buffer.extend_from_slice(computer.as_bytes());
    buffer.extend_from_slice(original.as_bytes());
    assert(buffer@ =~= canon_bytes(*data) + encode_utf8(computer@) + encode_utf8(original@));
    let digest = blake3_hash(&buffer);
    let mut uid: Vec<u8> = Vec::new();
    match sort_data {
        Some(sd) => {
            let w: u64 = #[verifier::truncate] (*sd as u64);
            crate::json::push_le8(&mut uid, w);
            uid.push(digest[0]);
            uid.push(digest[1]);
            uid.push(digest[2]);
            uid.push(digest[3]);
            uid.push(digest[4]);
            uid.push(digest[5]);
            uid.push(digest[6]);
            uid.push(digest[7]);
            assert(uid@ =~= spec_uid_bytes(*data, computer@, original@, *sort_data));
        },
        None => {
            uid.push(digest[0]);
            uid.push(digest[1]);
            uid.push(digest[2]);
            uid.push(digest[3]);
            uid.push(digest[4]);
            uid.push(digest[5]);
            uid.push(digest[6]);
            uid.push(digest[7]);
            uid.push(digest[8]);
            uid.push(digest[9]);
            uid.push(digest[10]);
            uid.push(digest[11]);
            uid.push(digest[12]);
            uid.push(digest[13]);
            uid.push(digest[14]);
            uid.push(digest[15]);
            assert(uid@ =~= spec_uid_bytes(*data, computer@, original@, *sort_data));
        },
    }
    b64url_encode(uid.as_slice())
}

/// A sink: one transport that takes envelopes and can be flushed. The file,
/// bus and store transports implement it outside the library; nothing is
/// assumed of their behaviour beyond the success or failure they report.
pub trait OutputWriter {
    /// Write a single envelope to the sink.
    fn write(&mut self, data: &Tuple) -> Result<(), Error>;

    /// Push whatever the sink still buffers out to its destination.
    fn flush(&mut self) -> Result<(), Error>;
}

/// The sink fan-out: one envelope written through it reaches every sink, and
/// a flush reaches every sink even when some of them fail.
pub struct Output<W: OutputWriter> {
    pub list: Vec<W>,
    pub num_rows: usize,
}

impl<W: OutputWriter> Output<W> {
    /// A fan-out over the given sinks, with no rows written yet.
    pub fn new(list: Vec<W>) -> (r: Output<W>)
        ensures
            r.list@ == list@,
            r.num_rows == 0,
    {
        Output { list, num_rows: 0 }
    }

    /// Write one envelope to every sink, stopping at the first failure; the
    /// row counter grows by one exactly when every sink accepted the row.
    #[verifier::loop_isolation(false)]
    pub fn write(&mut self, data: &Tuple) -> (r: Result<(), Error>)
        requires
            old(self).num_rows < usize::MAX,
        ensures
            final(self).list.len() == old(self).list.len(),
            r is Ok ==> final(self).num_rows == old(self).num_rows + 1,
            r is Err ==> final(self).num_rows == old(self).num_rows,
    {
        let ghost n = self.list@.len();
        let mut done: Vec<W> = Vec::new();
        let mut failure: Option<Error> = None;
        while self.list.len() > 0
            invariant
                done@.len() + self.list@.len() == n,
                self.num_rows == old(self).num_rows,
            decreases self.list.len(),
        {
            let mut w = self.list.remove(0);
            if failure.is_none() {
                if let Err(e) = w.write(data) {
                    failure = Some(e);
                }
            }
            done.push(w);
        }
        self.list = done;
        match failure {
            Some(e) => Err(e),
            None => {
                self.num_rows = self.num_rows + 1;
                Ok(())
            },
        }
    }

    /// Flush every sink, never skipping one; the failures are coalesced
    /// into the single flush error.
    #[verifier::loop_isolation(false)]
    pub fn flush(&mut self) -> (r: Result<(), Error>)
        ensures
            final(self).list.len() == old(self).list.len(),
            final(self).num_rows == old(self).num_rows,
            r is Err ==> r matches Err(Error::OutputFlush),
    {
        let ghost n = self.list@.len();
        let mut done: Vec<W> = Vec::new();
        let mut in_error = false;
        while self.list.len() > 0
            invariant
                done@.len() + self.list@.len() == n,
                self.num_rows == old(self).num_rows,
            decreases self.list.len(),
        {
            let mut w = self.list.remove(0);
            if w.flush().is_err() {
                in_error = true;
            }
            done.push(w);
        }
        self.list = done;
        if in_error {
            Err(Error::OutputFlush)
        } else {
            Ok(())
        }
    }

    /// The number of rows accepted by every sink.
    pub fn num_rows(&self) -> (r: usize)
        ensures
            r == self.num_rows,
    {
        self.num_rows
    }
}

/// The configuration of one sink: a JSONL file tree, a columnar store, or a
/// keyed message bus.
#[derive(Debug, Clone)]
pub enum OutputConfig {
    File { folder: String },
    Clickhouse { server: String, login: Option<String>, password: Option<String> },
    Kafka { params: Vec<(String, String)> },
}

} // verus!
