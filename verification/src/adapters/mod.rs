//! The parts of each database adapter that decide and compute: catalogue
//! queries, reading catalogue rows and turning driver values into cells.

pub mod mysql;
pub mod postgres;
pub mod sqlserver;
