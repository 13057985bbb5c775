//! Exports localization strings held in a spreadsheet workbook as one JSON
//! document per language.
//!
//! The workbook arrives as plain values ([`workbook::Workbook`]); the crate
//! normalizes cells, reads the two control sheets, scans the content sheets,
//! validates placeholders, merges the per-sheet tables into one document per
//! language and drives the export run as a state machine whose actions the
//! caller performs.

pub mod placeholder;
pub mod text;
pub mod cell;
pub mod progress;
pub mod error;
pub mod workbook;
pub mod registry;
pub mod assoc;
pub mod table;
pub mod document;
pub mod assemble;
pub mod action;
pub mod plan;
pub mod run;
pub mod laws;
pub mod run_laws;
