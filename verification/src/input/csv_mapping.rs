use vstd::prelude::*;

use crate::configuration::DataType;
use crate::input::csv::{DateFormat, FieldType};

verus! {

/// The default cell delimiter of a tabular file.
pub const DEFAULT_DELIMITER: char = ',';

/// The mapping document of one tabular topic: its name, the optional sort
/// column, the delimiter, the fallback date format, and the typed columns.
/// A column that is not listed passes through as a non-mandatory string.
pub struct CsvMapping {
    pub topic: String,
    pub sort_field: Option<String>,
    pub csv_delimiter: char,
    pub default_date_format: DateFormat,
    pub fields: Vec<(String, FieldType)>,
}

/// The catalog column type of a tabular field type: integers widen to 64
/// bits, dates are stored as their canonical text.
pub open spec fn spec_field_data_type(ft: FieldType) -> DataType {
    match ft {
        FieldType::String { .. } => DataType::String,
        FieldType::Integer { .. } => DataType::Int64,
        FieldType::Float { .. } => DataType::Float,
        FieldType::Date { .. } => DataType::String,
    }
}

/// The index of the first mapping entry with this name, or the length.
pub open spec fn field_key_idx(fields: Seq<(String, FieldType)>, name: Seq<char>) -> int
    decreases fields.len(),
{
    if fields.len() == 0 {
        0
    } else if fields[0].0@ == name {
        0
    } else {
        1 + field_key_idx(fields.drop_first(), name)
    }
}

/// Whether the mapping types this column.
pub open spec fn has_field(fields: Seq<(String, FieldType)>, name: Seq<char>) -> bool {
    field_key_idx(fields, name) < fields.len()
}

/// The declared type of this column.
pub open spec fn spec_field_type(fields: Seq<(String, FieldType)>, name: Seq<char>) -> FieldType {
    fields[field_key_idx(fields, name)].1
}

/// What `field_key_idx` means: the first match, or the length.
pub proof fn lemma_field_key_idx(fields: Seq<(String, FieldType)>, name: Seq<char>)
    ensures
        0 <= field_key_idx(fields, name) <= fields.len(),
        field_key_idx(fields, name) < fields.len() ==> fields[field_key_idx(fields, name)].0@
            == name,
        forall|j: int| 0 <= j < field_key_idx(fields, name) ==> fields[j].0@ != name,
    decreases fields.len(),
{
    if fields.len() > 0 && fields[0].0@ != name {
        lemma_field_key_idx(fields.drop_first(), name);
        assert forall|j: int| 0 <= j < field_key_idx(fields, name) implies fields[j].0@ != name by {
            if j > 0 {
                assert(fields.drop_first()[j - 1] == fields[j]);
            }
        }
    }
}

impl CsvMapping {
    /// An empty mapping: everything passes through as strings, cells split
    /// on commas, dates default to RFC 3339.
    pub fn empty() -> (r: CsvMapping)
        ensures
            r.topic@.len() == 0,
            r.sort_field is None,
            r.csv_delimiter == ',',
            r.default_date_format is Rfc3339,
            r.fields@.len() == 0,
    {
        CsvMapping {
            topic: String::new(),
            sort_field: None,
            csv_delimiter: ',',
            default_date_format: DateFormat::Rfc3339,
            fields: Vec::new(),
        }
    }

    /// Look a column up by name.
    pub fn field_for(&self, name: &str) -> (r: Option<&FieldType>)
        ensures
            r is Some <==> has_field(self.fields@, name@),
            r matches Some(ft) ==> *ft == spec_field_type(self.fields@, name@),
    {
        proof {
            lemma_field_key_idx(self.fields@, name@);
        }
        let mut i: usize = 0;
        while i < self.fields.len()
            invariant
                i <= self.fields@.len(),
                forall|j: int| 0 <= j < i ==> self.fields@[j].0@ != name@,
                0 <= field_key_idx(self.fields@, name@) <= self.fields@.len(),
                field_key_idx(self.fields@, name@) < self.fields@.len() ==> self.fields@[
                    field_key_idx(self.fields@, name@)
                ].0@ == name@,
                forall|j: int|
                    0 <= j < field_key_idx(self.fields@, name@) ==> self.fields@[j].0@ != name@,
            decreases self.fields.len() - i,
        {
            if crate::text::str_eq(self.fields[i].0.as_str(), name) {
                return Some(&self.fields[i].1);
            }
            i = i + 1;
        }
        None
    }

    /// The catalog columns this mapping declares, in declaration order.
    pub fn partial_fields(&self) -> (r: Vec<(String, DataType)>)
        ensures
            r@.len() == self.fields@.len(),
            forall|i: int|
                0 <= i < r@.len() ==> r@[i].0@ == self.fields@[i].0@ && r@[i].1
                    == spec_field_data_type(#[trigger] self.fields@[i].1),
    {
        let mut res: Vec<(String, DataType)> = Vec::new();
        let mut i: usize = 0;
        while i < self.fields.len()
            invariant
                i <= self.fields@.len(),
                res@.len() == i,
                forall|j: int|
                    0 <= j < i ==> res@[j].0@ == self.fields@[j].0@ && res@[j].1
                        == spec_field_data_type(#[trigger] self.fields@[j].1),
            decreases self.fields.len() - i,
        {
            let name = self.fields[i].0.clone();
            let dt = match &self.fields[i].1 {
                FieldType::String { .. } => DataType::String,
                FieldType::Integer { .. } => DataType::Int64,
                FieldType::Float { .. } => DataType::Float,
                FieldType::Date { .. } => DataType::String,
            };
            res.push((name, dt));
            i = i + 1;
        }
        res
    }
}

} // verus!
