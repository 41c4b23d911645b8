//! The table engine: the table accumulator with its error taxonomy, and the
//! scanner that fills it from delimiter-separated text.
pub mod data;

pub mod reader;
pub mod laws;
