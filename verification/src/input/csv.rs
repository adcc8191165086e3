use vstd::prelude::*;

use crate::dates::{
    parse_pattern_naive, parse_pattern_tz, parse_rfc2822, parse_rfc3339, pattern_naive_parse,
    pattern_tz_parse, rfc2822_parse, rfc3339_parse,
};
use crate::errors::Error;
use crate::hashes::{hash_sort_string, str_sort_hash};
use crate::input::csv_mapping::CsvMapping;
use crate::input::csv_mapping::{has_field, spec_field_type};
use crate::json::{lemma_obj_key_idx, obj_insert, obj_key_idx, JsonValue};
use crate::output::{Fields, Output, OutputWriter, Tuple};

verus! {

/// The read buffer handed to the tabular reader: 10 MiB.
pub const BUFFER_CAPACITY: usize = 10485760;

/// The date formats a column can declare: the two named RFC formats, or a
/// chrono pattern together with whether it carries a timezone.
#[derive(Debug, Clone)]
pub enum DateFormat {
    Rfc3339,
    Rfc2822,
    Pattern(String, bool),
}

/// The cell types a mapping can declare for a column.
#[derive(Debug, Clone)]
pub enum FieldType {
    String { mandatory: bool },
    Integer { mandatory: bool },
    Float { mandatory: bool },
    Date { mandatory: bool, input_date_format: Option<DateFormat> },
}

/// Format-for-format equality of date formats, comparing pattern text.
pub open spec fn date_format_eq(a: DateFormat, b: DateFormat) -> bool {
    match (a, b) {
        (DateFormat::Rfc3339, DateFormat::Rfc3339) => true,
        (DateFormat::Rfc2822, DateFormat::Rfc2822) => true,
        (DateFormat::Pattern(p1, tz1), DateFormat::Pattern(p2, tz2)) => p1@ == p2@ && tz1 == tz2,
        _ => false,
    }
}

/// Field-for-field equality of field types, comparing pattern text.
pub open spec fn field_type_eq(a: FieldType, b: FieldType) -> bool {
    match (a, b) {
        (FieldType::String { mandatory: m1 }, FieldType::String { mandatory: m2 }) => m1 == m2,
        (FieldType::Integer { mandatory: m1 }, FieldType::Integer { mandatory: m2 }) => m1 == m2,
        (FieldType::Float { mandatory: m1 }, FieldType::Float { mandatory: m2 }) => m1 == m2,
        (
            FieldType::Date { mandatory: m1, input_date_format: f1 },
            FieldType::Date { mandatory: m2, input_date_format: f2 },
        ) => m1 == m2 && match (f1, f2) {
            (None, None) => true,
            (Some(a1), Some(b1)) => date_format_eq(a1, b1),
            _ => false,
        },
        _ => false,
    }
}

/// Copy a date format.
fn dup_date_format(f: &DateFormat) -> (r: DateFormat)
    ensures
        date_format_eq(r, *f),
{
    match f {
        DateFormat::Rfc3339 => DateFormat::Rfc3339,
        DateFormat::Rfc2822 => DateFormat::Rfc2822,
        DateFormat::Pattern(p, tz) => DateFormat::Pattern(p.clone(), *tz),
    }
}

/// Copy a field type.
fn dup_field_type(f: &FieldType) -> (r: FieldType)
    ensures
        field_type_eq(r, *f),
{
    match f {
        FieldType::String { mandatory } => FieldType::String { mandatory: *mandatory },
        FieldType::Integer { mandatory } => FieldType::Integer { mandatory: *mandatory },
        FieldType::Float { mandatory } => FieldType::Float { mandatory: *mandatory },
        FieldType::Date { mandatory, input_date_format } => FieldType::Date {
            mandatory: *mandatory,
            input_date_format: match input_date_format {
                Some(df) => Some(dup_date_format(df)),
                None => None,
            },
        },
    }
}

// ------------------------------------------------------------------
// Integer cells, parsed under std's lexical rules: an optional sign,
// then one or more decimal digits, nothing else, within the i64 range.
// ------------------------------------------------------------------

/// Whether a character is a decimal digit.
pub open spec fn is_ascii_digit(c: char) -> bool {
    48 <= c as u32 <= 57
}

/// The value of one digit character.
pub open spec fn digit_val(c: char) -> int {
    c as u32 - 48
}

/// Whether every character is a decimal digit.
pub open spec fn all_digits(s: Seq<char>) -> bool {
    forall|i: int| 0 <= i < s.len() ==> is_ascii_digit(#[trigger] s[i])
}

/// The value of a digit string, most significant digit first.
pub open spec fn digits_val(s: Seq<char>) -> int
    decreases s.len(),
{
    if s.len() == 0 {
        0
    } else {
        digits_val(s.drop_last()) * 10 + digit_val(s.last())
    }
}

/// What parsing a signed 64-bit integer yields: an optional `+` or `-`,
/// then at least one digit and nothing else, and the value must fit.
pub open spec fn spec_parse_i64(s: Seq<char>) -> Option<i64> {
    let neg = s.len() > 0 && s[0] == '-';
    let body = if s.len() > 0 && (s[0] == '-' || s[0] == '+') {
        s.drop_first()
    } else {
        s
    };
    if body.len() == 0 || !all_digits(body) {
        None
    } else {
        let mag = digits_val(body);
        if neg {
            if mag <= 0x8000_0000_0000_0000 {
                Some((-mag) as i64)
            } else {
                None
            }
        } else {
            if mag <= 0x7fff_ffff_ffff_ffff {
                Some(mag as i64)
            } else {
                None
            }
        }
    }
}

/// A digit string's value is never negative.
proof fn lemma_digits_nonneg(t: Seq<char>)
    requires
        all_digits(t),
    ensures
        digits_val(t) >= 0,
    decreases t.len(),
{
    if t.len() > 0 {
        assert(all_digits(t.drop_last())) by {
            assert(forall|i: int| 0 <= i < t.len() - 1 ==> t.drop_last()[i] == t[i]);
        }
        lemma_digits_nonneg(t.drop_last());
        assert(digits_val(t.drop_last()) * 10 >= 0) by (nonlinear_arith)
            requires
                digits_val(t.drop_last()) >= 0,
        ;
    }
}

/// Appending digits never lowers a digit string's value.
proof fn lemma_digits_prefix(t: Seq<char>, m: int)
    requires
        all_digits(t),
        0 <= m <= t.len(),
    ensures
        digits_val(t) >= digits_val(t.take(m)),
    decreases t.len(),
{
    if m < t.len() {
        let d = t.drop_last();
        assert(all_digits(d)) by {
            assert(forall|i: int| 0 <= i < t.len() - 1 ==> d[i] == t[i]);
        }
        lemma_digits_prefix(d, m);
        assert(d.take(m) =~= t.take(m));
        lemma_digits_nonneg(d);
        assert(digits_val(d) * 10 >= digits_val(d)) by (nonlinear_arith)
            requires
                digits_val(d) >= 0,
        ;
        assert(digits_val(t) >= digits_val(d));
    } else {
        assert(t.take(m) =~= t);
    }
}

/// Parse a signed 64-bit integer under std's lexical rules.
#[verifier::loop_isolation(false)]
pub fn parse_i64(s: &str) -> (r: Result<i64, Error>)
    ensures
        r is Ok <==> spec_parse_i64(s@) is Some,
        r matches Ok(v) ==> v == spec_parse_i64(s@).unwrap(),
        r matches Err(e) ==> e matches Error::ParseInt(t) && t@ == s@,
{
    let n = s.unicode_len();
    let mut start: usize = 0;
    let mut neg = false;
    if n > 0 {
        let c0 = s.get_char(0);
        if c0 == '-' {
            neg = true;
            start = 1;
        } else if c0 == '+' {
            start = 1;
        }
    }
    let ghost body = if start == 1 {
        s@.drop_first()
    } else {
        s@
    };
    if start >= n {
        return Err(Error::ParseInt(s.to_owned()));
    }
    assert(body.len() == n - start);
    let cut: u64 = 922337203685477580;
    let rem: u64 = if neg {
        8
    } else {
        7
    };
    let ghost limit: u64 = if neg {
        0x8000_0000_0000_0000u64
    } else {
        0x7fff_ffff_ffff_ffffu64
    };
    let mut mag: u64 = 0;
    let mut j: usize = start;
    while j < n
        invariant
            start <= j <= n,
            all_digits(body.take(j - start)),
            mag == digits_val(body.take(j - start)),
            mag <= limit,
        decreases n - j,
    {
        let c = s.get_char(j);
        let cv = c as u32;
        if cv < 48 || cv > 57 {
            assert(!is_ascii_digit(body[j - start]));
            assert(!all_digits(body));
            return Err(Error::ParseInt(s.to_owned()));
        }
        let d: u64 = (cv - 48) as u64;
        if mag > cut || (mag == cut && d > rem) {
            // the digits read so far already exceed the 64-bit range, and
            // more digits can only grow the value
            proof {
                let pre = body.take(j - start + 1);
                assert(pre.drop_last() =~= body.take(j - start));
                assert(pre.last() == body[j - start]);
                assert(digits_val(pre) == mag * 10 + d);
                assert(mag * 10 + d > limit) by (nonlinear_arith)
                    requires
                        mag > cut || (mag == cut && d > rem),
                        cut == 922337203685477580u64,
                        (neg ==> rem == 8 && limit == 0x8000_0000_0000_0000u64),
                        (!neg ==> rem == 7 && limit == 0x7fff_ffff_ffff_ffffu64),
                        d <= 9,
                ;
                if all_digits(body) {
                    lemma_digits_prefix(body, j - start + 1);
                    assert(digits_val(body) > limit);
                }
            }
            return Err(Error::ParseInt(s.to_owned()));
        }
        proof {
            let pre = body.take(j - start + 1);
            assert(pre.drop_last() =~= body.take(j - start));
            assert(pre.last() == body[j - start]);
            assert(mag * 10 + d <= limit) by (nonlinear_arith)
                requires
                    mag <= cut,
                    mag < cut || d <= rem,
                    cut == 922337203685477580u64,
                    (neg ==> rem == 8 && limit == 0x8000_0000_0000_0000u64),
                    (!neg ==> rem == 7 && limit == 0x7fff_ffff_ffff_ffffu64),
                    d <= 9,
            ;
        }
        mag = mag * 10 + d;
        j = j + 1;
    }
    proof {
        assert(body.take(n - start) =~= body);
    }
    if neg {
        if mag == 0x8000_0000_0000_0000u64 {
            Ok(i64::MIN)
        } else {
            Ok(-(mag as i64))
        }
    } else {
        Ok(mag as i64)
    }
}

// ------------------------------------------------------------------
// Floating-point cells.
// ------------------------------------------------------------------

/// What parsing a tabular cell as a 64-bit float yields: the IEEE 754 bits,
/// the value truncated toward zero with saturation, and the JSON text of
/// the number, absent when the value is not finite. Nothing when the cell
/// does not parse as a float.
pub uninterp spec fn float_cell(s: Seq<char>) -> Option<(u64, i64, Option<Seq<char>>)>;

/// Relies on std's float parsing, on the saturating float-to-integer cast,
/// and on serde_json's number rendering: all the results depend on the cell
/// text alone. A non-finite value has no JSON number text.
#[verifier::external_body]
pub fn parse_float_cell(s: &str) -> (r: Option<(u64, i64, Option<String>)>)
    ensures
        r is Some <==> float_cell(s@) is Some,
        r matches Some(t) ==> ({
            let m = float_cell(s@).unwrap();
            t.0 == m.0 && t.1 == m.1 && (t.2 is Some <==> m.2 is Some) && (t.2 matches Some(x)
                ==> x@ == m.2.unwrap())
        }),
{
    let v = match s.parse() {
        Ok(v) => v,
        Err(_) => return None,
    };
    let repr = serde_json::Number::from_f64(v).map(|n| n.to_string());
    Some((v.to_bits(), v as i64, repr))
}

// ------------------------------------------------------------------
// Column converters.
// ------------------------------------------------------------------

/// The converter of one column: its header name, whether a value must be
/// present, its declared type, and the topic's fallback date format.
pub struct Converter {
    pub field_name: String,
    pub mandatory: bool,
    pub field_type: FieldType,
    pub default_date_format: DateFormat,
}

/// The date format a converter applies: its own, or the topic's fallback.
pub open spec fn conv_date_format(conv: Converter) -> DateFormat {
    match conv.field_type {
        FieldType::Date { input_date_format: Some(f), .. } => f,
        _ => conv.default_date_format,
    }
}

/// What parsing a date under a format yields.
pub open spec fn date_fmt_parse(fmt: DateFormat, s: Seq<char>) -> Option<(i64, Seq<char>)> {
    match fmt {
        DateFormat::Rfc2822 => rfc2822_parse(s),
        DateFormat::Rfc3339 => rfc3339_parse(s),
        DateFormat::Pattern(p, tz) => if tz {
            pattern_tz_parse(s, p@)
        } else {
            pattern_naive_parse(s, p@)
        },
    }
}

/// Whether a non-empty cell converts under this converter's type.
pub open spec fn cell_convertible(conv: Converter, cell: Seq<char>) -> bool {
    match conv.field_type {
        FieldType::String { .. } => true,
        FieldType::Integer { .. } => spec_parse_i64(cell) is Some,
        FieldType::Float { .. } => float_cell(cell) is Some,
        FieldType::Date { .. } => date_fmt_parse(conv_date_format(conv), cell) is Some,
    }
}

/// The JSON value of a converted cell: strings pass through, integers and
/// floats become numbers, a non-finite float becomes null, dates become
/// their canonical UTC text.
pub open spec fn cell_value_ok(conv: Converter, cell: Seq<char>, v: JsonValue) -> bool {
    match conv.field_type {
        FieldType::String { .. } => v matches JsonValue::Text(s) && s@ == cell,
        FieldType::Integer { .. } => v matches JsonValue::Int(i) && Some(i) == spec_parse_i64(cell),
        FieldType::Float { .. } => {
            let m = float_cell(cell).unwrap();
            match m.2 {
                Some(repr) => v matches JsonValue::Float { bits, repr: r2 } && bits == m.0 && r2@
                    == repr,
                None => v is Null,
            }
        },
        FieldType::Date { .. } => v matches JsonValue::Text(s) && s@ == date_fmt_parse(
            conv_date_format(conv),
            cell,
        ).unwrap().1,
    }
}

/// The sort key of a converted cell: the numeric value for numbers, a float
/// truncated toward zero, the millisecond UTC timestamp for dates, and a
/// 64-bit string hash for text.
pub open spec fn cell_sort_ok(conv: Converter, cell: Seq<char>, sd: i64) -> bool {
    match conv.field_type {
        FieldType::String { .. } => sd == str_sort_hash(cell) as i64,
        FieldType::Integer { .. } => Some(sd) == spec_parse_i64(cell),
        FieldType::Float { .. } => sd == float_cell(cell).unwrap().1,
        FieldType::Date { .. } => sd == date_fmt_parse(conv_date_format(conv), cell).unwrap().0,
    }
}

impl Converter {
    /// Convert one non-empty cell to its JSON value; which error comes back
    /// names what failed to parse.
    pub fn to_json_value(&self, value: &str) -> (r: Result<JsonValue, Error>)
        ensures
            r is Ok <==> cell_convertible(*self, value@),
            r matches Ok(v) ==> cell_value_ok(*self, value@, v),
    {
        match &self.field_type {
            FieldType::String { .. } => Ok(JsonValue::Text(value.to_owned())),
            FieldType::Integer { .. } => {
                match parse_i64(value) {
                    Ok(v) => Ok(JsonValue::Int(v)),
                    Err(e) => Err(e),
                }
            },
            FieldType::Float { .. } => {
                match parse_float_cell(value) {
                    Some((bits, _trunc, Some(repr))) => Ok(JsonValue::Float { bits, repr }),
                    Some((_bits, _trunc, None)) => Ok(JsonValue::Null),
                    None => Err(Error::ParseFloat(value.to_owned())),
                }
            },
            FieldType::Date { input_date_format, .. } => {
                let fmt = match input_date_format {
                    Some(f) => f,
                    None => &self.default_date_format,
                };
                let parsed = match fmt {
                    DateFormat::Rfc2822 => parse_rfc2822(value),
                    DateFormat::Rfc3339 => parse_rfc3339(value),
                    DateFormat::Pattern(p, tz) => if *tz {
                        parse_pattern_tz(value, p.as_str())
                    } else {
                        parse_pattern_naive(value, p.as_str())
                    },
                };
                match parsed {
                    Some((_millis, text)) => Ok(JsonValue::Text(text)),
                    None => Err(Error::ParseDate(value.to_owned())),
                }
            },
        }
    }

    /// Compute the sort key of one non-empty cell.
    pub fn to_sort_data(&self, value: &str) -> (r: Result<i64, Error>)
        ensures
            r is Ok <==> cell_convertible(*self, value@),
            r matches Ok(sd) ==> cell_sort_ok(*self, value@, sd),
            r matches Err(e) ==> sort_error_ok(*self, value@, e),
    {
        match &self.field_type {
            FieldType::String { .. } => {
                let h = hash_sort_string(value);
                Ok(#[verifier::truncate] (h as i64))
            },
            FieldType::Integer { .. } => parse_i64(value),
            FieldType::Float { .. } => {
                match parse_float_cell(value) {
                    Some((_bits, trunc, _repr)) => Ok(trunc),
                    None => Err(Error::ParseFloat(value.to_owned())),
                }
            },
            FieldType::Date { input_date_format, .. } => {
                let fmt = match input_date_format {
                    Some(f) => f,
                    None => &self.default_date_format,
                };
                let parsed = match fmt {
                    DateFormat::Rfc2822 => parse_rfc2822(value),
                    DateFormat::Rfc3339 => parse_rfc3339(value),
                    DateFormat::Pattern(p, tz) => if *tz {
                        parse_pattern_tz(value, p.as_str())
                    } else {
                        parse_pattern_naive(value, p.as_str())
                    },
                };
                match parsed {
                    Some((millis, _text)) => Ok(millis),
                    None => Err(Error::ParseDate(value.to_owned())),
                }
            },
        }
    }
}

// ------------------------------------------------------------------
// Header-driven conversion of whole rows.
// ------------------------------------------------------------------

/// Whether a field type demands a value.
pub open spec fn ft_mandatory(ft: FieldType) -> bool {
    match ft {
        FieldType::String { mandatory } => mandatory,
        FieldType::Integer { mandatory } => mandatory,
        FieldType::Float { mandatory } => mandatory,
        FieldType::Date { mandatory, .. } => mandatory,
    }
}

/// What the converter of one header column must look like: named after the
/// column; typed and marked mandatory as the mapping declares, or a
/// non-mandatory pass-through string when the mapping is silent; carrying
/// the topic's fallback date format.
pub open spec fn converter_ok(conv: Converter, name: Seq<char>, mapping: CsvMapping) -> bool {
    &&& conv.field_name@ == name
    &&& date_format_eq(conv.default_date_format, mapping.default_date_format)
    &&& if has_field(mapping.fields@, name) {
        let ft = spec_field_type(mapping.fields@, name);
        field_type_eq(conv.field_type, ft) && conv.mandatory == ft_mandatory(ft)
    } else {
        (conv.field_type matches FieldType::String { mandatory } && mandatory == false)
            && conv.mandatory == false
    }
}

/// The index of the last header equal to `name`, or `usize::MAX` when none
/// is: the place of the sort column.
pub open spec fn last_match_idx(headers: Seq<String>, name: Seq<char>) -> int
    decreases headers.len(),
{
    if headers.len() == 0 {
        usize::MAX as int
    } else if headers.last()@ == name {
        headers.len() - 1
    } else {
        last_match_idx(headers.drop_last(), name)
    }
}

/// Build one converter per header column and locate the sort column.
#[verifier::loop_isolation(false)]
pub fn create_converters(headers: &Vec<String>, mapping: &CsvMapping) -> (r: (Vec<Converter>, usize))
    ensures
        r.0@.len() == headers@.len(),
        forall|i: int|
            0 <= i < headers@.len() ==> converter_ok(#[trigger] r.0@[i], headers@[i]@, *mapping),
        match mapping.sort_field {
            Some(sf) => r.1 == last_match_idx(headers@, sf@),
            None => r.1 == usize::MAX,
        },
{
    let mut converters: Vec<Converter> = Vec::new();
    let mut sort_pos: usize = usize::MAX;
    let mut i: usize = 0;
    while i < headers.len()
        invariant
            i <= headers@.len(),
            converters@.len() == i,
            forall|j: int|
                0 <= j < i ==> converter_ok(#[trigger] converters@[j], headers@[j]@, *mapping),
            match mapping.sort_field {
                Some(sf) => sort_pos == last_match_idx(headers@.take(i as int), sf@),
                None => sort_pos == usize::MAX,
            },
        decreases headers.len() - i,
    {
        let name = &headers[i];
        if let Some(sf) = &mapping.sort_field {
            if crate::text::str_eq(name.as_str(), sf.as_str()) {
                sort_pos = i;
            }
        }
        proof {
            if mapping.sort_field is Some {
                let sf = mapping.sort_field.unwrap()@;
                let t = headers@.take(i + 1);
                assert(t.drop_last() =~= headers@.take(i as int));
                assert(t.last() == headers@[i as int]);
            }
        }
        let conv = match mapping.field_for(name.as_str()) {
            Some(ft) => Converter {
                field_name: name.clone(),
                mandatory: match ft {
                    FieldType::String { mandatory } => *mandatory,
                    FieldType::Integer { mandatory } => *mandatory,
                    FieldType::Float { mandatory } => *mandatory,
                    FieldType::Date { mandatory, .. } => *mandatory,
                },
                field_type: dup_field_type(ft),
                default_date_format: dup_date_format(&mapping.default_date_format),
            },
            None => Converter {
                field_name: name.clone(),
                mandatory: false,
                field_type: FieldType::String { mandatory: false },
                default_date_format: dup_date_format(&mapping.default_date_format),
            },
        };
        converters.push(conv);
        i = i + 1;
    }
    proof {
        assert(headers@.take(headers@.len() as int) =~= headers@);
    }
    (converters, sort_pos)
}

/// Whether an empty cell is allowed here, and a non-empty one converts.
pub open spec fn cell_admissible(conv: Converter, cell: Seq<char>) -> bool {
    if cell.len() == 0 {
        !conv.mandatory
    } else {
        cell_convertible(conv, cell)
    }
}

/// The first column whose cell is not admissible, or the row's width.
pub open spec fn first_bad(converters: Seq<Converter>, cells: Seq<String>) -> int
    decreases cells.len(),
{
    if cells.len() == 0 {
        0
    } else if !cell_admissible(converters[0], cells[0]@) {
        0
    } else {
        1 + first_bad(converters.drop_first(), cells.drop_first())
    }
}

/// What `first_bad` means: the first inadmissible column, or the width.
pub proof fn lemma_first_bad(converters: Seq<Converter>, cells: Seq<String>)
    requires
        cells.len() <= converters.len(),
    ensures
        0 <= first_bad(converters, cells) <= cells.len(),
        first_bad(converters, cells) < cells.len() ==> !cell_admissible(
            converters[first_bad(converters, cells)],
            cells[first_bad(converters, cells)]@,
        ),
        forall|j: int|
            0 <= j < first_bad(converters, cells) ==> cell_admissible(
                converters[j],
                #[trigger] cells[j]@,
            ),
    decreases cells.len(),
{
    if cells.len() > 0 && cell_admissible(converters[0], cells[0]@) {
        lemma_first_bad(converters.drop_first(), cells.drop_first());
        assert forall|j: int|
            0 <= j < first_bad(converters, cells) implies cell_admissible(
            converters[j],
            #[trigger] cells[j]@,
        ) by {
            if j > 0 {
                assert(cells.drop_first()[j - 1] == cells[j]);
                assert(converters.drop_first()[j - 1] == converters[j]);
            }
        }
    }
}

/// The error the sort column yields when its cell does not parse: the
/// parse error of the column's own type, carrying the cell text.
pub open spec fn sort_error_ok(conv: Converter, cell: Seq<char>, e: Error) -> bool {
    match conv.field_type {
        FieldType::String { .. } => false,
        FieldType::Integer { .. } => e matches Error::ParseInt(t) && t@ == cell,
        FieldType::Float { .. } => e matches Error::ParseFloat(t) && t@ == cell,
        FieldType::Date { .. } => e matches Error::ParseDate(t) && t@ == cell,
    }
}

/// The column indices whose cells are non-empty, in order: exactly the keys
/// that the row's object will carry.
pub open spec fn kept(cells: Seq<String>) -> Seq<int>
    decreases cells.len(),
{
    if cells.len() == 0 {
        Seq::empty()
    } else if cells.last()@.len() > 0 {
        kept(cells.drop_last()).push(cells.len() - 1)
    } else {
        kept(cells.drop_last())
    }
}

/// Whether this object's entries are, in order, exactly the converted
/// non-empty cells of the first `upto` columns.
pub open spec fn entries_match(
    entries: Seq<(String, JsonValue)>,
    converters: Seq<Converter>,
    cells: Seq<String>,
    upto: int,
) -> bool {
    let ks = kept(cells.take(upto));
    entries.len() == ks.len() && forall|k: int|
        0 <= k < ks.len() ==> (#[trigger] entries[k]).0@ == converters[ks[k]].field_name@
            && cell_value_ok(converters[ks[k]], cells[ks[k]]@, entries[k].1)
}

/// Whether the headers of the non-empty cells are pairwise distinct.
pub open spec fn uniq_kept_keys(converters: Seq<Converter>, cells: Seq<String>) -> bool {
    forall|a: int, b: int|
        #![trigger converters[a], converters[b]]
        0 <= a < b < cells.len() && cells[a]@.len() > 0 && cells[b]@.len() > 0
            ==> converters[a].field_name@ != converters[b].field_name@
}

/// Every kept index points at a non-empty cell within the row.
pub proof fn lemma_kept(cells: Seq<String>)
    ensures
        kept(cells).len() <= cells.len(),
        forall|k: int|
            0 <= k < kept(cells).len() ==> 0 <= #[trigger] kept(cells)[k] < cells.len() && cells[
                kept(cells)[k]
            ]@.len() > 0,
        forall|k1: int, k2: int|
            0 <= k1 < k2 < kept(cells).len() ==> kept(cells)[k1] < kept(cells)[k2],
    decreases cells.len(),
{
    if cells.len() > 0 {
        lemma_kept(cells.drop_last());
        assert(forall|j: int|
            0 <= j < cells.len() - 1 ==> #[trigger] cells.drop_last()[j] == cells[j]);
    }
}

/// Convert one row to its JSON object and optional sort key. The object
/// carries, in column order, exactly the non-empty cells, each converted
/// under its column's type; an empty cell appears nowhere. The sort key is
/// present exactly when the sort column holds a non-empty cell.
#[verifier::loop_isolation(false)]
pub fn convert_line(
    converters: &Vec<Converter>,
    cells: &Vec<String>,
    sort_column: usize,
    line_num: usize,
) -> (r: Result<(JsonValue, Option<i64>), Error>)
    requires
        cells@.len() <= converters@.len(),
    ensures
        r is Ok <==> (forall|j: int|
            0 <= j < cells@.len() ==> cell_admissible(converters@[j], #[trigger] cells@[j]@)),
        r matches Ok((v, sd)) ==> (v matches JsonValue::Object(entries) && (uniq_kept_keys(
            converters@,
            cells@,
        ) ==> entries_match(entries@, converters@, cells@, cells@.len() as int))),
        r matches Ok((v, sd)) ==> ({
            let sc_live = sort_column < cells@.len() && cells@[sort_column as int]@.len() > 0;
            (sd is Some <==> sc_live) && (sc_live ==> cell_sort_ok(
                converters@[sort_column as int],
                cells@[sort_column as int]@,
                sd.unwrap(),
            ))
        }),
        ({
            let fb = first_bad(converters@, cells@);
            fb < cells@.len() && cells@[fb]@.len() == 0
        }) ==> (r matches Err(Error::CsvMandatoryField(l, c, f)) && l == line_num && c
            == first_bad(converters@, cells@) && f@ == converters@[first_bad(
            converters@,
            cells@,
        )].field_name@),
        ({
            let fb = first_bad(converters@, cells@);
            fb < cells@.len() && cells@[fb]@.len() > 0 && fb != sort_column
        }) ==> (r matches Err(Error::CsvParsing(l, c, f, t)) && l == line_num && c == first_bad(
            converters@,
            cells@,
        ) && f@ == converters@[first_bad(converters@, cells@)].field_name@ && t@ == cells@[
            first_bad(converters@, cells@)
        ]@),
        ({
            let fb = first_bad(converters@, cells@);
            fb < cells@.len() && cells@[fb]@.len() > 0 && fb == sort_column
        }) ==> (r matches Err(e) && sort_error_ok(
            converters@[first_bad(converters@, cells@)],
            cells@[first_bad(converters@, cells@)]@,
            e,
        )),
{
    proof {
        lemma_kept(cells@);
        lemma_first_bad(converters@, cells@);
    }
    let mut entries: Vec<(String, JsonValue)> = Vec::new();
    let mut sort_data: Option<i64> = None;
    let mut column: usize = 0;
    while column < cells.len()
        invariant
            column <= cells@.len(),
            forall|j: int|
                0 <= j < column ==> cell_admissible(converters@[j], #[trigger] cells@[j]@),
            uniq_kept_keys(converters@, cells@) ==> entries_match(
                entries@,
                converters@,
                cells@,
                column as int,
            ),
            ({
                let sc_live = sort_column < column && cells@[sort_column as int]@.len() > 0;
                (sort_data is Some <==> sc_live) && (sc_live ==> cell_sort_ok(
                    converters@[sort_column as int],
                    cells@[sort_column as int]@,
                    sort_data.unwrap(),
                ))
            }),
        decreases cells.len() - column,
    {
        proof {
            lemma_kept(cells@.take(column as int));
            let t = cells@.take(column + 1);
            assert(t.drop_last() =~= cells@.take(column as int));
            assert(t.last() == cells@[column as int]);
        }
        let conv = &converters[column];
        let data = &cells[column];
        if data.as_str().unicode_len() == 0 {
            if conv.mandatory {
                proof {
                    assert(first_bad(converters@, cells@) == column);
                }
                return Err(
                    Error::CsvMandatoryField(line_num, column, conv.field_name.clone()),
                );
            }
            // an empty cell is neither parsed nor inserted
        } else {
            if sort_column == column {
                match conv.to_sort_data(data.as_str()) {
                    Ok(sd) => {
                        sort_data = Some(sd);
                    },
                    Err(e) => {
                        proof {
                            assert(first_bad(converters@, cells@) == column);
                        }
                        return Err(e);
                    },
                }
            }
            match conv.to_json_value(data.as_str()) {
                Ok(value) => {
                    proof {
                        if uniq_kept_keys(converters@, cells@) {
                            lemma_obj_key_idx(entries@, conv.field_name@);
                            let ks = kept(cells@.take(column as int));
                            assert forall|k: int| 0 <= k < entries@.len() implies (#[trigger] entries@[k]).0@ != conv.field_name@ by {
                                assert(entries@[k].0@ == converters@[ks[k]].field_name@);
                                assert(cells@[ks[k]]@.len() > 0);
                                assert(ks[k] < column);
                            }
                            assert(obj_key_idx(entries@, conv.field_name@) == entries@.len());
                        }
                    }
                    obj_insert(&mut entries, conv.field_name.clone(), value);
                },
                Err(_e) => {
                    proof {
                        assert(first_bad(converters@, cells@) == column);
                    }
                    return Err(
                        Error::CsvParsing(line_num, column, conv.field_name.clone(), data.clone()),
                    );
                },
            }
        }
        column = column + 1;
    }
    proof {
        assert(cells@.take(cells@.len() as int) =~= cells@);
    }
    Ok((JsonValue::Object(entries), sort_data))
}

/// Whether a whole record converts: it was read cleanly, it is no wider
/// than the header, and every cell is admissible.
pub open spec fn row_admissible(converters: Seq<Converter>, rec: Result<Vec<String>, String>) -> bool {
    rec matches Ok(cells) && cells@.len() <= converters.len() && (forall|j: int|
        0 <= j < cells@.len() ==> cell_admissible(converters[j], #[trigger] cells@[j]@))
}

/// How many records past the skipped prefix convert.
pub open spec fn admissible_count(
    converters: Seq<Converter>,
    records: Seq<Result<Vec<String>, String>>,
    skip: int,
) -> int
    decreases records.len(),
{
    if records.len() == 0 {
        0
    } else {
        admissible_count(converters, records.drop_last(), skip) + if records.len() - 1 >= skip
            && row_admissible(converters, records.last()) {
            1int
        } else {
            0int
        }
    }
}

/// Decode the records of one file and write one envelope per record to the
/// fan-out. The first `skip_lines` records are passed over unread; each
/// later record becomes exactly one envelope when it converts. Under
/// `best_effort` a record that does not convert is skipped; otherwise it
/// aborts the file. A sink failure always aborts the file.
#[verifier::loop_isolation(false)]
pub fn parse_records<W: OutputWriter>(
    converters: &Vec<Converter>,
    records: &Vec<Result<Vec<String>, String>>,
    sort_column: usize,
    fields: &Fields,
    output: &mut Output<W>,
    best_effort: bool,
    skip_lines: usize,
) -> (r: Result<(), Error>)
    requires
        old(output).num_rows == 0,
    ensures
        r is Ok ==> final(output).num_rows == admissible_count(
            converters@,
            records@,
            skip_lines as int,
        ),
        r is Ok && !best_effort ==> (forall|i: int|
            skip_lines <= i < records@.len() ==> row_admissible(converters@, #[trigger] records@[i])),
{
    let mut line_nb: usize = 0;
    while line_nb < records.len()
        invariant
            line_nb <= records@.len(),
            output.num_rows == admissible_count(
                converters@,
                records@.take(line_nb as int),
                skip_lines as int,
            ),
            output.num_rows <= line_nb,
            !best_effort ==> (forall|i: int|
                skip_lines <= i < line_nb ==> row_admissible(
                    converters@,
                    #[trigger] records@[i],
                )),
        decreases records.len() - line_nb,
    {
        proof {
            let t = records@.take(line_nb + 1);
            assert(t.drop_last() =~= records@.take(line_nb as int));
            assert(t.last() == records@[line_nb as int]);
        }
        if line_nb >= skip_lines {
            match &records[line_nb] {
                Err(msg) => {
                    if !best_effort {
                        return Err(Error::Io(msg.clone()));
                    }
                    // under best effort a bad record is skipped
                },
                Ok(cells) => {
                    if cells.len() > converters.len() {
                        if !best_effort {
                            return Err(
                                Error::CsvParsing(
                                    line_nb,
                                    converters.len(),
                                    String::new(),
                                    String::from_str("row wider than header"),
                                ),
                            );
                        }
                    } else {
                        match convert_line(converters, cells, sort_column, line_nb) {
                            Ok((data, sort_data)) => {
                                let mut tuple = Tuple::new(fields);
                                let set = tuple.set_data(data, sort_data);
                                if let Err(e) = set {
                                    return Err(e);
                                }
                                if let Err(e) = output.write(&tuple) {
                                    return Err(e);
                                }
                            },
                            Err(err) => {
                                if !best_effort {
                                    return Err(err);
                                }
                                // under best effort a bad row is skipped
                            },
                        }
                    }
                },
            }
        }
        line_nb = line_nb + 1;
    }
    proof {
        assert(records@.take(records@.len() as int) =~= records@);
    }
    Ok(())
}

/// Relies on the csv crate: reads the file at `path` with the given
/// delimiter and a 10 MiB buffer, returning the header row and each
/// record's cells, or that record's error text. What comes back depends on
/// what is on disk, so nothing more is promised.
#[verifier::external_body]
fn read_csv(path: &str, delimiter: u8) -> (r: Result<
    (Vec<String>, Vec<Result<Vec<String>, String>>),
    Error,
>) {
    let mut builder = csv::ReaderBuilder::new();
    builder.has_headers(true).delimiter(delimiter).buffer_capacity(BUFFER_CAPACITY);
    let mut reader = builder.from_path(path).map_err(|e| Error::Io(e.to_string()))?;
    let headers = reader.headers().map_err(|e| Error::Io(e.to_string()))?.iter().map(|s| s.to_string()).collect();
    let records = reader.records().map(|rec| rec.map(|row| row.iter().map(|s| s.to_string()).collect()).map_err(|e| e.to_string())).collect();
    Ok((headers, records))
}

/// Decode one tabular file under its mapping and write every decoded row to
/// the fan-out; the row count comes back. What the file holds depends on
/// the file system; the per-record guarantees are those of
/// `parse_records` and `convert_line`.
pub fn parse_csv<W: OutputWriter>(
    path: &str,
    fields: &Fields,
    mapping: &CsvMapping,
    best_effort: bool,
    skip_lines: usize,
    output: &mut Output<W>,
) -> (r: Result<usize, Error>)
    requires
        old(output).num_rows == 0,
    ensures
        r matches Ok(n) ==> n == final(output).num_rows,
{
    let delim: u8 = #[verifier::truncate] (mapping.csv_delimiter as u8);
    let (headers, records) = match read_csv(path, delim) {
        Ok(t) => t,
        Err(e) => return Err(e),
    };
    let (converters, sort_col) = create_converters(&headers, mapping);
    match parse_records(&converters, &records, sort_col, fields, output, best_effort, skip_lines) {
        Ok(()) => Ok(output.num_rows()),
        Err(e) => Err(e),
    }
}

} // verus!
