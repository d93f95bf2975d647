//! Layout of rectangular pieces on a bounded sheet, derivation of straight
//! cutting lines from the resulting layout, and emission of the machine
//! program that realizes those lines.

pub mod app_error;
pub mod cut_disposition;
pub mod cut_disposition_service;
pub mod cutting_lines;
pub mod cutting_lines_service;
pub mod cutting_table;
pub mod cutting_table_service;
pub mod fabric;
pub mod fabric_cut;
pub mod fabric_service;
pub mod file_service;
pub mod gcode_service;
pub mod sorting;
pub mod text;
pub mod utils;
