pub mod csv;
pub mod evtx;
pub mod hive;
pub mod srum;
pub mod srum_model;
pub mod csv_mapping;
