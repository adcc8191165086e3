pub mod archive_parser;
pub mod b64;
pub mod configuration;
pub mod dates;
pub mod errors;
pub mod hashes;
pub mod input;
pub mod json;
pub mod output;
pub mod text;
pub mod writer;

pub use errors::Error;
