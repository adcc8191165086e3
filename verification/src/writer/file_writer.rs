use vstd::prelude::*;

use crate::errors::Error;
use crate::output::{spec_tuple_json, OutputWriter, Tuple};

verus! {

/// A sink that keeps its lines in memory, up to a cap: the test double of
/// the file sink.
pub struct MemoryWriter {
    pub buffer: Vec<String>,
    pub max_row: usize,
}

impl MemoryWriter {
    /// An empty buffer that accepts up to `max_row` lines.
    pub fn new(max_row: usize) -> (r: MemoryWriter)
        ensures
            r.buffer@.len() == 0,
            r.max_row == max_row,
    {
        MemoryWriter { buffer: Vec::new(), max_row }
    }

    /// The lines kept so far.
    pub fn get_buffer(&self) -> (r: &Vec<String>)
        ensures
            r@ == self.buffer@,
    {
        &self.buffer
    }
}

impl OutputWriter for MemoryWriter {
    /// Keep the envelope's JSONL line when the cap leaves room.
    fn write(&mut self, data: &Tuple) -> (r: Result<(), Error>) {
        if self.buffer.len() < self.max_row {
            let line = match data.to_json_string() {
                Ok(line) => line,
                Err(e) => {
                    return Err(e);
                },
            };
            self.buffer.push(line);
        }
        Ok(())
    }

    /// Nothing is buffered anywhere else: flushing is a no-op.
    fn flush(&mut self) -> (r: Result<(), Error>) {
        Ok(())
    }
}

} // verus!
