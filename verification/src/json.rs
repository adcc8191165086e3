use vstd::prelude::*;
use vstd::utf8::encode_utf8;

use crate::text::{dec_i64_str, dec_u64_str, push_char, push_i64_dec, push_u64_dec, str_eq};

verus! {

/// A JSON value whose object entries keep their insertion order.
///
/// A floating-point number is carried as its IEEE 754 bit pattern, which the
/// identifier hash feeds in little-endian order, together with the exact text
/// that the JSON writer prints for it; both come from the same parse.
#[derive(Debug)]
pub enum JsonValue {
    Null,
    Bool(bool),
    Int(i64),
    Uint(u64),
    Float { bits: u64, repr: String },
    Text(String),
    Array(Vec<JsonValue>),
    Object(Vec<(String, JsonValue)>),
}

/// The eight little-endian bytes of a 64-bit value.
pub open spec fn le8(v: u64) -> Seq<u8> {
    seq![
        (v & 0xff) as u8,
        ((v >> 8) & 0xff) as u8,
        ((v >> 16) & 0xff) as u8,
        ((v >> 24) & 0xff) as u8,
        ((v >> 32) & 0xff) as u8,
        ((v >> 40) & 0xff) as u8,
        ((v >> 48) & 0xff) as u8,
        ((v >> 56) & 0xff) as u8,
    ]
}

/// The canonical byte sequence hashed for the record identifier: object
/// entries in their current order, each key as its UTF-8 bytes followed by
/// the encoding of its value; strings as raw UTF-8 bytes; booleans as one
/// byte; numbers as eight little-endian bytes; nulls as nothing; arrays as
/// the concatenation of their elements.
pub open spec fn canon_bytes(v: JsonValue) -> Seq<u8>
    decreases v,
{
    match v {
        JsonValue::Null => Seq::empty(),
        JsonValue::Bool(b) => seq![if b { 1u8 } else { 0u8 }],
        JsonValue::Int(i) => le8(i as u64),
        JsonValue::Uint(u) => le8(u),
        JsonValue::Float { bits, repr } => le8(bits),
        JsonValue::Text(s) => encode_utf8(s@),
        JsonValue::Array(items) => canon_list(items@),
        JsonValue::Object(entries) => canon_entries(entries@),
    }
}

/// Canonical bytes of an array: element encodings, concatenated.
pub open spec fn canon_list(items: Seq<JsonValue>) -> Seq<u8>
    decreases items,
{
    if items.len() == 0 {
        Seq::empty()
    } else {
        canon_list(items.drop_last()) + canon_bytes(items.last())
    }
}

/// Canonical bytes of an object: for each entry in order, the key's UTF-8
/// bytes followed by the value's encoding.
pub open spec fn canon_entries(entries: Seq<(String, JsonValue)>) -> Seq<u8>
    decreases entries,
{
    if entries.len() == 0 {
        Seq::empty()
    } else {
        canon_entries(entries.drop_last()) + encode_utf8(entries.last().0@) + canon_bytes(
            entries.last().1,
        )
    }
}

/// Append the canonical encoding of `v` to `out`.
#[verifier::loop_isolation(false)]
pub fn canon_into(v: &JsonValue, out: &mut Vec<u8>)
    ensures
        final(out)@ == old(out)@ + canon_bytes(*v),
    decreases *v,
{
    match v {
        JsonValue::Null => {
            assert(out@ =~= old(out)@ + canon_bytes(*v));
        },
        JsonValue::Bool(b) => {
            out.push(if *b { 1u8 } else { 0u8 });
            assert(out@ =~= old(out)@ + canon_bytes(*v));
        },
        JsonValue::Int(i) => {
            push_le8(out, #[verifier::truncate] (*i as u64));
            assert(out@ =~= old(out)@ + canon_bytes(*v));
        },
        JsonValue::Uint(u) => {
            push_le8(out, *u);
            assert(out@ =~= old(out)@ + canon_bytes(*v));
        },
        JsonValue::Float { bits, repr } => {
            push_le8(out, *bits);
            assert(out@ =~= old(out)@ + canon_bytes(*v));
        },
        JsonValue::Text(s) => {
            out.extend_from_slice(s.as_str().as_bytes());
            assert(out@ =~= old(out)@ + canon_bytes(*v));
        },
        JsonValue::Array(items) => {
            let ghost base = out@;
            let mut i: usize = 0;
            while i < items.len()
                invariant
                    i <= items.len(),
                    out@ == base + canon_list(items@.take(i as int)),
                decreases items.len() - i,
            {
                proof {
                    assert(*items == v->Array_0);
                    assert(decreases_to!(*v => v->Array_0));
                    assert(decreases_to!(v->Array_0 => v->Array_0@));
                    assert(decreases_to!(v->Array_0@ => v->Array_0@[i as int]));
                }
                canon_into(&items[i], out);
                proof {
                    let t = items@.take(i + 1);
                    assert(t.drop_last() =~= items@.take(i as int));
                    assert(t.last() == items@[i as int]);
                }
                i = i + 1;
            }
            proof {
                assert(items@.take(items@.len() as int) =~= items@);
            }
        },
        JsonValue::Object(entries) => {
            let ghost base = out@;
            let mut i: usize = 0;
            while i < entries.len()
                invariant
                    i <= entries.len(),
                    out@ == base + canon_entries(entries@.take(i as int)),
                decreases entries.len() - i,
            {
                out.extend_from_slice(entries[i].0.as_str().as_bytes());
                proof {
                    assert(*entries == v->Object_0);
                    assert(decreases_to!(*v => v->Object_0));
                    assert(decreases_to!(v->Object_0 => v->Object_0@));
                    assert(decreases_to!(v->Object_0@ => v->Object_0@[i as int]));
                    assert(decreases_to!(v->Object_0@[i as int] => v->Object_0@[i as int].1));
                }
                canon_into(&entries[i].1, out);
                proof {
                    let t = entries@.take(i + 1);
                    assert(t.drop_last() =~= entries@.take(i as int));
                    assert(t.last() == entries@[i as int]);
                }
                i = i + 1;
            }
            proof {
                assert(entries@.take(entries@.len() as int) =~= entries@);
            }
        },
    }
}

/// Append the eight little-endian bytes of `v` to `out`.
pub(crate) fn push_le8(out: &mut Vec<u8>, v: u64)
    ensures
        final(out)@ == old(out)@ + le8(v),
{
    out.push((v & 0xff) as u8);
    out.push(((v >> 8) & 0xff) as u8);
    out.push(((v >> 16) & 0xff) as u8);
    out.push(((v >> 24) & 0xff) as u8);
    out.push(((v >> 32) & 0xff) as u8);
    out.push(((v >> 40) & 0xff) as u8);
    out.push(((v >> 48) & 0xff) as u8);
    out.push(((v >> 56) & 0xff) as u8);
    assert(out@ =~= old(out)@ + le8(v));
}

/// The canonical encoding of `v` as a fresh byte vector.
pub fn canon_of(v: &JsonValue) -> (r: Vec<u8>)
    ensures
        r@ == canon_bytes(*v),
{
    let mut out: Vec<u8> = Vec::new();
    canon_into(v, &mut out);
    out
}

// ------------------------------------------------------------------
// Object operations, with the order semantics of an insertion-ordered map:
// an insert of an existing key replaces its value in place, and a removal
// moves the last entry into the vacated slot.
// ------------------------------------------------------------------

/// The index of the first entry with this key, or the length if none has it.
pub open spec fn obj_key_idx(entries: Seq<(String, JsonValue)>, key: Seq<char>) -> int
    decreases entries.len(),
{
    if entries.len() == 0 {
        0
    } else if entries[0].0@ == key {
        0
    } else {
        1 + obj_key_idx(entries.drop_first(), key)
    }
}

/// Whether some entry has this key.
pub open spec fn obj_has_key(entries: Seq<(String, JsonValue)>, key: Seq<char>) -> bool {
    obj_key_idx(entries, key) < entries.len()
}

/// The value of the first entry with this key.
pub open spec fn obj_spec_value(entries: Seq<(String, JsonValue)>, key: Seq<char>) -> JsonValue {
    entries[obj_key_idx(entries, key)].1
}

/// The entries after an insert: a present key keeps its place and its key
/// string and gets the new value; an absent key is appended at the end.
pub open spec fn obj_spec_insert(
    entries: Seq<(String, JsonValue)>,
    key: String,
    value: JsonValue,
) -> Seq<(String, JsonValue)> {
    let i = obj_key_idx(entries, key@);
    if i < entries.len() {
        entries.update(i, (entries[i].0, value))
    } else {
        entries.push((key, value))
    }
}

/// The entries after a removal: the last entry moves into the vacated slot.
pub open spec fn obj_spec_swap_remove(
    entries: Seq<(String, JsonValue)>,
    key: Seq<char>,
) -> Seq<(String, JsonValue)> {
    let i = obj_key_idx(entries, key);
    if i < entries.len() {
        entries.update(i, entries.last()).drop_last()
    } else {
        entries
    }
}

/// What `obj_key_idx` means: it is the first match, or the length.
pub proof fn lemma_obj_key_idx(entries: Seq<(String, JsonValue)>, key: Seq<char>)
    ensures
        0 <= obj_key_idx(entries, key) <= entries.len(),
        obj_key_idx(entries, key) < entries.len() ==> entries[obj_key_idx(entries, key)].0@ == key,
        forall|j: int|
            0 <= j < obj_key_idx(entries, key) ==> entries[j].0@ != key,
    decreases entries.len(),
{
    if entries.len() > 0 && entries[0].0@ != key {
        lemma_obj_key_idx(entries.drop_first(), key);
        assert forall|j: int| 0 <= j < obj_key_idx(entries, key) implies entries[j].0@ != key by {
            if j > 0 {
                assert(entries.drop_first()[j - 1] == entries[j]);
            }
        }
    }
}

/// Find the first entry with this key; returns the length when none has it.
pub fn obj_find(entries: &Vec<(String, JsonValue)>, key: &str) -> (r: usize)
    ensures
        r == obj_key_idx(entries@, key@),
{
    proof {
        lemma_obj_key_idx(entries@, key@);
    }
    let mut i: usize = 0;
    while i < entries.len()
        invariant
            i <= entries.len(),
            forall|j: int| 0 <= j < i ==> entries@[j].0@ != key@,
            0 <= obj_key_idx(entries@, key@) <= entries@.len(),
            obj_key_idx(entries@, key@) < entries@.len() ==> entries@[obj_key_idx(
                entries@,
                key@,
            )].0@ == key@,
            forall|j: int| 0 <= j < obj_key_idx(entries@, key@) ==> entries@[j].0@ != key@,
        decreases entries.len() - i,
    {
        if str_eq(entries[i].0.as_str(), key) {
            return i;
        }
        i = i + 1;
    }
    i
}

/// Insert with replace-in-place semantics.
pub fn obj_insert(entries: &mut Vec<(String, JsonValue)>, key: String, value: JsonValue)
    ensures
        final(entries)@ == obj_spec_insert(old(entries)@, key, value),
{
    let i = obj_find(entries, key.as_str());
    if i < entries.len() {
        let kept = entries[i].0.clone();
        entries.set(i, (kept, value));
        assert(entries@ =~= obj_spec_insert(old(entries)@, key, value));
    } else {
        entries.push((key, value));
    }
}

/// Remove an entry by key, moving the last entry into its slot.
pub fn obj_swap_remove(entries: &mut Vec<(String, JsonValue)>, key: &str) -> (r: Option<
    JsonValue,
>)
    ensures
        final(entries)@ == obj_spec_swap_remove(old(entries)@, key@),
        r is Some <==> obj_has_key(old(entries)@, key@),
        r is Some ==> r.unwrap() == obj_spec_value(old(entries)@, key@),
{
    let i = obj_find(entries, key);
    if i < entries.len() {
        let pair = entries.swap_remove(i);
        assert(entries@ =~= obj_spec_swap_remove(old(entries)@, key@));
        Some(pair.1)
    } else {
        None
    }
}

/// Borrow the value of the first entry with this key.
pub fn obj_get<'a>(entries: &'a Vec<(String, JsonValue)>, key: &str) -> (r: Option<
    &'a JsonValue,
>)
    ensures
        r is Some <==> obj_has_key(entries@, key@),
        r is Some ==> *r.unwrap() == obj_spec_value(entries@, key@),
{
    let i = obj_find(entries, key);
    if i < entries.len() {
        Some(&entries[i].1)
    } else {
        None
    }
}

/// Whether an object's keys are pairwise distinct.
pub open spec fn obj_uniq(entries: Seq<(String, JsonValue)>) -> bool {
    forall|a: int, b: int|
        #![trigger entries[a], entries[b]]
        0 <= a < b < entries.len() ==> entries[a].0@ != entries[b].0@
}

/// On an object with distinct keys, removing one key leaves every other
/// key, with its value, in place, and the keys stay distinct.
pub proof fn lemma_swap_remove_preserves(
    entries: Seq<(String, JsonValue)>,
    rkey: Seq<char>,
    k: Seq<char>,
)
    requires
        obj_uniq(entries),
    ensures
        k != rkey ==> obj_has_key(obj_spec_swap_remove(entries, rkey), k) == obj_has_key(
            entries,
            k,
        ),
        k != rkey && obj_has_key(entries, k) ==> obj_spec_value(
            obj_spec_swap_remove(entries, rkey),
            k,
        ) == obj_spec_value(entries, k),
        obj_uniq(obj_spec_swap_remove(entries, rkey)),
        !obj_has_key(obj_spec_swap_remove(entries, rkey), rkey),
{
    if k == rkey {
        lemma_swap_remove_self(entries, rkey);
        assert(obj_uniq(obj_spec_swap_remove(entries, rkey)));
    } else {
        lemma_swap_remove_other(entries, rkey, k);
    }
}

proof fn lemma_swap_remove_self(entries: Seq<(String, JsonValue)>, rkey: Seq<char>)
    requires
        obj_uniq(entries),
    ensures
        obj_uniq(obj_spec_swap_remove(entries, rkey)),
        !obj_has_key(obj_spec_swap_remove(entries, rkey), rkey),
{
    lemma_swap_remove_other(entries, rkey, rkey)
}

proof fn lemma_swap_remove_other(
    entries: Seq<(String, JsonValue)>,
    rkey: Seq<char>,
    k: Seq<char>,
)
    requires
        obj_uniq(entries),
    ensures
        k != rkey ==> obj_has_key(obj_spec_swap_remove(entries, rkey), k) == obj_has_key(
            entries,
            k,
        ),
        k != rkey && obj_has_key(entries, k) ==> obj_spec_value(
            obj_spec_swap_remove(entries, rkey),
            k,
        ) == obj_spec_value(entries, k),
        obj_uniq(obj_spec_swap_remove(entries, rkey)),
        !obj_has_key(obj_spec_swap_remove(entries, rkey), rkey),
{
    lemma_obj_key_idx(entries, rkey);
    lemma_obj_key_idx(entries, k);
    let after = obj_spec_swap_remove(entries, rkey);
    let i = obj_key_idx(entries, rkey);
    if i < entries.len() {
        assert(after =~= entries.update(i, entries.last()).drop_last());
        assert(forall|m: int|
            0 <= m < after.len() ==> #[trigger] after[m] == if m == i {
                entries[entries.len() - 1]
            } else {
                entries[m]
            });
        lemma_obj_key_idx(after, k);
        lemma_obj_key_idx(after, rkey);
        let j = obj_key_idx(entries, k);
        if k != rkey {
            if j < entries.len() {
                // k sits either where it was, or, when it was last, in the
                // vacated slot
                if j == entries.len() - 1 {
                    assert(i < entries.len() - 1);
                    assert(after[i] == entries[j]);
                    assert(obj_has_key(after, k));
                } else {
                    assert(after[j] == entries[j]);
                    assert(obj_has_key(after, k));
                }
                let j2 = obj_key_idx(after, k);
                assert(after[j2].0@ == k);
                assert(after[j2] == entries[j] || after[j2] == entries[entries.len() - 1]);
            } else {
                if obj_has_key(after, k) {
                    let j2 = obj_key_idx(after, k);
                    assert(after[j2].0@ == k);
                    assert(false);
                }
            }
        }
        if obj_has_key(after, rkey) {
            let j3 = obj_key_idx(after, rkey);
            assert(after[j3].0@ == rkey);
            assert(after[j3] == entries[j3] || after[j3] == entries[entries.len() - 1]);
            assert(false);
        }
    }
}

/// On an object with distinct keys, inserting a key leaves every other key,
/// with its value, in place; the inserted key then holds the new value, and
/// the keys stay distinct.
pub proof fn lemma_insert_preserves(
    entries: Seq<(String, JsonValue)>,
    key: String,
    value: JsonValue,
    k: Seq<char>,
)
    requires
        obj_uniq(entries),
    ensures
        k != key@ ==> obj_has_key(obj_spec_insert(entries, key, value), k) == obj_has_key(
            entries,
            k,
        ),
        k != key@ && obj_has_key(entries, k) ==> obj_spec_value(
            obj_spec_insert(entries, key, value),
            k,
        ) == obj_spec_value(entries, k),
        obj_has_key(obj_spec_insert(entries, key, value), key@),
        obj_spec_value(obj_spec_insert(entries, key, value), key@) == value,
        obj_uniq(obj_spec_insert(entries, key, value)),
{
    lemma_obj_key_idx(entries, key@);
    lemma_obj_key_idx(entries, k);
    let after = obj_spec_insert(entries, key, value);
    let i = obj_key_idx(entries, key@);
    lemma_obj_key_idx(after, k);
    lemma_obj_key_idx(after, key@);
    if i < entries.len() {
        assert(forall|m: int|
            0 <= m < after.len() ==> #[trigger] after[m] == if m == i {
                (entries[i].0, value)
            } else {
                entries[m]
            });
        let j2 = obj_key_idx(after, key@);
        assert(after[i].0@ == key@);
        assert(obj_has_key(after, key@));
        assert(after[j2].0@ == key@);
        if j2 != i {
            if j2 < i {
                assert(after[j2] == entries[j2]);
            } else {
                assert(after[j2] == entries[j2]);
            }
            assert(false);
        }
        if k != key@ {
            let j = obj_key_idx(entries, k);
            if j < entries.len() {
                assert(after[j] == entries[j]);
                assert(obj_has_key(after, k));
                let j3 = obj_key_idx(after, k);
                assert(after[j3].0@ == k);
                assert(after[j3] == entries[j3]);
            } else {
                if obj_has_key(after, k) {
                    let j3 = obj_key_idx(after, k);
                    assert(after[j3].0@ == k);
                    assert(after[j3] == entries[j3] || j3 == i);
                    assert(false);
                }
            }
        }
    } else {
        assert(after =~= entries.push((key, value)));
        assert(forall|m: int| 0 <= m < entries.len() ==> #[trigger] after[m] == entries[m]);
        let j2 = obj_key_idx(after, key@);
        assert(after[entries.len() as int].0@ == key@);
        assert(obj_has_key(after, key@));
        assert(after[j2].0@ == key@);
        if j2 < entries.len() {
            assert(false);
        }
        if k != key@ {
            let j = obj_key_idx(entries, k);
            if j < entries.len() {
                assert(after[j] == entries[j]);
                assert(obj_has_key(after, k));
                let j3 = obj_key_idx(after, k);
                assert(after[j3].0@ == k);
                if j3 < entries.len() {
                    assert(after[j3] == entries[j3]);
                } else {
                    assert(false);
                }
            } else {
                if obj_has_key(after, k) {
                    let j3 = obj_key_idx(after, k);
                    assert(after[j3].0@ == k);
                    if j3 < entries.len() {
                        assert(after[j3] == entries[j3]);
                        assert(false);
                    } else {
                        assert(false);
                    }
                }
            }
        }
    }
}

/// The forall form of `lemma_swap_remove_preserves`: one call settles every
/// other key at once.
pub proof fn lemma_swap_remove_preserves_all(entries: Seq<(String, JsonValue)>, rkey: Seq<char>)
    requires
        obj_uniq(entries),
    ensures
        obj_uniq(obj_spec_swap_remove(entries, rkey)),
        !obj_has_key(obj_spec_swap_remove(entries, rkey), rkey),
        forall|k: Seq<char>|
            k != rkey ==> #[trigger] obj_has_key(obj_spec_swap_remove(entries, rkey), k)
                == obj_has_key(entries, k),
        forall|k: Seq<char>|
            k != rkey && obj_has_key(entries, k) ==> #[trigger] obj_spec_value(
                obj_spec_swap_remove(entries, rkey),
                k,
            ) == obj_spec_value(entries, k),
{
    lemma_swap_remove_preserves(entries, rkey, rkey);
    assert forall|k: Seq<char>| k != rkey implies #[trigger] obj_has_key(
        obj_spec_swap_remove(entries, rkey),
        k,
    ) == obj_has_key(entries, k) by {
        lemma_swap_remove_preserves(entries, rkey, k);
    }
    assert forall|k: Seq<char>| k != rkey && obj_has_key(entries, k) implies #[trigger] obj_spec_value(
        obj_spec_swap_remove(entries, rkey),
        k,
    ) == obj_spec_value(entries, k) by {
        lemma_swap_remove_preserves(entries, rkey, k);
    }
}

/// The forall form of `lemma_insert_preserves`: one call settles every
/// other key at once.
pub proof fn lemma_insert_preserves_all(
    entries: Seq<(String, JsonValue)>,
    key: String,
    value: JsonValue,
)
    requires
        obj_uniq(entries),
    ensures
        obj_uniq(obj_spec_insert(entries, key, value)),
        obj_has_key(obj_spec_insert(entries, key, value), key@),
        obj_spec_value(obj_spec_insert(entries, key, value), key@) == value,
        forall|k: Seq<char>|
            k != key@ ==> #[trigger] obj_has_key(obj_spec_insert(entries, key, value), k)
                == obj_has_key(entries, k),
        forall|k: Seq<char>|
            k != key@ && obj_has_key(entries, k) ==> #[trigger] obj_spec_value(
                obj_spec_insert(entries, key, value),
                k,
            ) == obj_spec_value(entries, k),
{
    lemma_insert_preserves(entries, key, value, key@);
    assert forall|k: Seq<char>| k != key@ implies #[trigger] obj_has_key(
        obj_spec_insert(entries, key, value),
        k,
    ) == obj_has_key(entries, k) by {
        lemma_insert_preserves(entries, key, value, k);
    }
    assert forall|k: Seq<char>| k != key@ && obj_has_key(entries, k) implies #[trigger] obj_spec_value(
        obj_spec_insert(entries, key, value),
        k,
    ) == obj_spec_value(entries, k) by {
        lemma_insert_preserves(entries, key, value, k);
    }
}

// ------------------------------------------------------------------
// The JSON writer. Its output matches the conventional compact form:
// no whitespace, object entries in their stored order, strings escaped
// with `\"`, `\\`, `\b`, `\t`, `\n`, `\f`, `\r` and `\u00XX` for other
// control characters, and nothing else escaped.
// ------------------------------------------------------------------

/// A lowercase hexadecimal digit.
pub open spec fn hex_digit(d: nat) -> char {
    if d < 10 {
        ((d + 48) as u8) as char
    } else {
        ((d - 10 + 97) as u8) as char
    }
}

/// The escape of one character inside a JSON string literal.
pub open spec fn esc_char(c: char) -> Seq<char> {
    if c == '"' {
        seq!['\\', '"']
    } else if c == '\\' {
        seq!['\\', '\\']
    } else if c == '\u{08}' {
        seq!['\\', 'b']
    } else if c == '\u{09}' {
        seq!['\\', 't']
    } else if c == '\u{0a}' {
        seq!['\\', 'n']
    } else if c == '\u{0c}' {
        seq!['\\', 'f']
    } else if c == '\u{0d}' {
        seq!['\\', 'r']
    } else if (c as u32) < 32 {
        seq!['\\', 'u', '0', '0', hex_digit((c as u32) as nat / 16), hex_digit((c as u32) as nat % 16)]
    } else {
        seq![c]
    }
}

/// The body of a JSON string literal: each character escaped.
pub open spec fn esc_str(s: Seq<char>) -> Seq<char>
    decreases s.len(),
{
    if s.len() == 0 {
        Seq::empty()
    } else {
        esc_str(s.drop_last()) + esc_char(s.last())
    }
}

/// A quoted, escaped JSON string literal.
pub open spec fn quote_str(s: Seq<char>) -> Seq<char> {
    seq!['"'] + esc_str(s) + seq!['"']
}

/// The JSON text of a value.
pub open spec fn json_text(v: JsonValue) -> Seq<char>
    decreases v,
{
    match v {
        JsonValue::Null => seq!['n', 'u', 'l', 'l'],
        JsonValue::Bool(b) => if b {
            seq!['t', 'r', 'u', 'e']
        } else {
            seq!['f', 'a', 'l', 's', 'e']
        },
        JsonValue::Int(i) => dec_i64_str(i as int),
        JsonValue::Uint(u) => dec_u64_str(u as nat),
        JsonValue::Float { bits, repr } => repr@,
        JsonValue::Text(s) => quote_str(s@),
        JsonValue::Array(items) => seq!['['] + json_list(items@) + seq![']'],
        JsonValue::Object(entries) => seq!['{'] + json_obj(entries@) + seq!['}'],
    }
}

/// Array elements joined by commas.
pub open spec fn json_list(items: Seq<JsonValue>) -> Seq<char>
    decreases items,
{
    if items.len() == 0 {
        Seq::empty()
    } else if items.len() == 1 {
        json_text(items[0])
    } else {
        json_list(items.drop_last()) + seq![','] + json_text(items.last())
    }
}

/// Object entries `"key":value` joined by commas.
pub open spec fn json_obj(entries: Seq<(String, JsonValue)>) -> Seq<char>
    decreases entries,
{
    if entries.len() == 0 {
        Seq::empty()
    } else if entries.len() == 1 {
        quote_str(entries[0].0@) + seq![':'] + json_text(entries[0].1)
    } else {
        json_obj(entries.drop_last()) + seq![','] + quote_str(entries.last().0@) + seq![':']
            + json_text(entries.last().1)
    }
}

/// Append the escaped form of one character.
fn push_escaped(c: char, out: &mut String)
    ensures
        final(out)@ == old(out)@ + esc_char(c),
{
    if c == '"' {
        push_char(out, '\\');
        push_char(out, '"');
        assert(out@ =~= old(out)@ + esc_char(c));
    } else if c == '\\' {
        push_char(out, '\\');
        push_char(out, '\\');
        assert(out@ =~= old(out)@ + esc_char(c));
    } else if c == '\u{08}' {
        push_char(out, '\\');
        push_char(out, 'b');
        assert(out@ =~= old(out)@ + esc_char(c));
    } else if c == '\u{09}' {
        push_char(out, '\\');
        push_char(out, 't');
        assert(out@ =~= old(out)@ + esc_char(c));
    } else if c == '\u{0a}' {
        push_char(out, '\\');
        push_char(out, 'n');
        assert(out@ =~= old(out)@ + esc_char(c));
    } else if c == '\u{0c}' {
        push_char(out, '\\');
        push_char(out, 'f');
        assert(out@ =~= old(out)@ + esc_char(c));
    } else if c == '\u{0d}' {
        push_char(out, '\\');
        push_char(out, 'r');
        assert(out@ =~= old(out)@ + esc_char(c));
    } else if (c as u32) < 32 {
        let v = c as u32;
        push_char(out, '\\');
        push_char(out, 'u');
        push_char(out, '0');
        push_char(out, '0');
        let hi = (v / 16) as u8;
        let lo = (v % 16) as u8;
        let hic: char = if hi < 10 {
            ((hi + 48) as u8) as char
        } else {
            ((hi - 10 + 97) as u8) as char
        };
        let loc: char = if lo < 10 {
            ((lo + 48) as u8) as char
        } else {
            ((lo - 10 + 97) as u8) as char
        };
        push_char(out, hic);
        push_char(out, loc);
        assert(out@ =~= old(out)@ + esc_char(c));
    } else {
        push_char(out, c);
        assert(out@ =~= old(out)@ + esc_char(c));
    }
}

/// Append a quoted, escaped JSON string literal.
pub fn push_quoted(s: &str, out: &mut String)
    ensures
        final(out)@ == old(out)@ + quote_str(s@),
{
    push_char(out, '"');
    let n = s.unicode_len();
    let mut i: usize = 0;
    while i < n
        invariant
            n == s@.len(),
            i <= n,
            out@ == old(out)@ + seq!['"'] + esc_str(s@.take(i as int)),
        decreases n - i,
    {
        let c = s.get_char(i);
        push_escaped(c, out);
        proof {
            let t = s@.take(i + 1);
            assert(t.drop_last() =~= s@.take(i as int));
            assert(t.last() == s@[i as int]);
        }
        i = i + 1;
    }
    push_char(out, '"');
    proof {
        assert(s@.take(s@.len() as int) =~= s@);
        assert(out@ =~= old(out)@ + quote_str(s@));
    }
}

/// Append the JSON text of a value.
#[verifier::loop_isolation(false)]
#[verifier::rlimit(30)]
pub fn push_json(v: &JsonValue, out: &mut String)
    ensures
        final(out)@ == old(out)@ + json_text(*v),
    decreases *v,
{
    match v {
        JsonValue::Null => {
            push_char(out, 'n');
            push_char(out, 'u');
            push_char(out, 'l');
            push_char(out, 'l');
            assert(out@ =~= old(out)@ + json_text(*v));
        },
        JsonValue::Bool(b) => {
            if *b {
                push_char(out, 't');
                push_char(out, 'r');
                push_char(out, 'u');
                push_char(out, 'e');
            } else {
                push_char(out, 'f');
                push_char(out, 'a');
                push_char(out, 'l');
                push_char(out, 's');
                push_char(out, 'e');
            }
            assert(out@ =~= old(out)@ + json_text(*v));
        },
        JsonValue::Int(i) => {
            push_i64_dec(*i, out);
        },
        JsonValue::Uint(u) => {
            push_u64_dec(*u, out);
        },
        JsonValue::Float { bits, repr } => {
            out.append(repr.as_str());
        },
        JsonValue::Text(s) => {
            push_quoted(s.as_str(), out);
        },
        JsonValue::Array(items) => {
            push_char(out, '[');
            let ghost base = out@;
            let mut i: usize = 0;
            while i < items.len()
                invariant
                    i <= items.len(),
                    out@ == base + json_list(items@.take(i as int)),
                decreases items.len() - i,
            {
                if i > 0 {
                    push_char(out, ',');
                }
                proof {
                    assert(*items == v->Array_0);
                    assert(decreases_to!(*v => v->Array_0));
                    assert(decreases_to!(v->Array_0 => v->Array_0@));
                    assert(decreases_to!(v->Array_0@ => v->Array_0@[i as int]));
                }
                push_json(&items[i], out);
                proof {
                    let t = items@.take(i + 1);
                    assert(t.drop_last() =~= items@.take(i as int));
                    assert(t.last() == items@[i as int]);
                    if i == 0 {
                        assert(json_list(t) == json_text(items@[0]));
                    }
                }
                i = i + 1;
            }
            push_char(out, ']');
            proof {
                assert(items@.take(items@.len() as int) =~= items@);
                assert(out@ =~= old(out)@ + json_text(*v));
            }
        },
        JsonValue::Object(entries) => {
            push_char(out, '{');
            let ghost base = out@;
            let mut i: usize = 0;
            while i < entries.len()
                invariant
                    i <= entries.len(),
                    out@ == base + json_obj(entries@.take(i as int)),
                decreases entries.len() - i,
            {
                if i > 0 {
                    push_char(out, ',');
                }
                push_quoted(entries[i].0.as_str(), out);
                push_char(out, ':');
                proof {
                    assert(*entries == v->Object_0);
                    assert(decreases_to!(*v => v->Object_0));
                    assert(decreases_to!(v->Object_0 => v->Object_0@));
                    assert(decreases_to!(v->Object_0@ => v->Object_0@[i as int]));
                    assert(decreases_to!(v->Object_0@[i as int] => v->Object_0@[i as int].1));
                }
                push_json(&entries[i].1, out);
                proof {
                    let t = entries@.take(i + 1);
                    assert(t.drop_last() =~= entries@.take(i as int));
                    assert(t.last() == entries@[i as int]);
                    if i == 0 {
                        assert(json_obj(t) == quote_str(entries@[0].0@) + seq![':'] + json_text(
                            entries@[0].1,
                        ));
                    }
                    assert(out@ =~= base + json_obj(entries@.take(i + 1)));
                }
                i = i + 1;
            }
            push_char(out, '}');
            proof {
                assert(entries@.take(entries@.len() as int) =~= entries@);
                assert(out@ =~= old(out)@ + json_text(*v));
            }
        },
    }
}

/// The JSON text of a value, as a fresh `String`.
pub fn json_to_string(v: &JsonValue) -> (r: String)
    ensures
        r@ == json_text(*v),
{
    let mut out = String::new();
    push_json(v, &mut out);
    out
}

} // verus!
