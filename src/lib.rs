//! Fetches one web page, extracts the file links it lists, and downloads
//! each linked file. This crate holds the decisions: which links a page
//! yields, which responses count as success, what each download item does
//! next, and what a finished batch reports.

pub mod document;
pub mod download;
pub mod error;
pub mod laws;
pub mod links;
pub mod run;
pub mod status;
