pub mod file_writer;
