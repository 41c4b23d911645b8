//! Reading delimiter-separated text (CSV, TSV) into rectangular tables, with
//! quote validation and row-shape checks that say where malformed input fails.
pub mod field;
pub mod table;
pub mod csv;
pub mod geometry;
pub mod shape;
pub mod settings;
pub mod state;
pub mod menu;
pub mod event;
pub mod resource;
pub mod color;
