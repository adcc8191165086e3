use vstd::prelude::*;

verus! {

/// The error taxonomy of the library: I/O and decode failures carry the
/// offending text, schema errors carry the field they refer to, and sink
/// errors mark which transport failed.
#[derive(Debug, Clone)]
pub enum Error {
    /// A file or stream could not be read or written.
    Io(String),
    /// A binary decoder rejected its input.
    Decoder(String),
    /// The configuration file does not exist.
    Configuration(String),
    /// A tabular mapping file does not exist.
    CsvConfiguration(String),
    /// A mandatory tabular cell was empty: line, column, field name.
    CsvMandatoryField(usize, usize, String),
    /// A tabular cell could not be converted: line, column, field name, cause.
    CsvParsing(usize, usize, String, String),
    /// An integer cell did not parse.
    ParseInt(String),
    /// A floating-point cell did not parse.
    ParseFloat(String),
    /// A date cell did not parse under its configured format.
    ParseDate(String),
    /// `set_data` was called a second time on the same envelope.
    DataField,
    /// A value that must be a JSON object was not one; carries the field name.
    JsonNotAnObject(String),
    /// A value that must be a JSON string was not one; carries the field name.
    JsonNotAString(String),
    /// A malformed Windows event-log record.
    Evtx(String),
    /// At least one sink failed while flushing.
    OutputFlush,
    /// The bus producer reported a delivery error.
    KafkaProducer,
    /// The bus topic does not exist on the broker.
    KafkaUnknownTopic(String),
    /// A bus resource request failed.
    KafkaResource(String),
    /// The sort field of a topic is not among its declared fields: table, field.
    ClickhouseSortField(String, String),
    /// Any other failure, described in text.
    Generic(String),
}

} // verus!
