//! An interactive client for an academic paper index: searching, browsing
//! results one at a time, and resolving a paper's canonical link to a
//! downloadable PDF by scraping a mirror page.
//!
//! This crate holds the verified core: the search-response decoding rules,
//! the link-priority logic, the navigation state machine, the popup overlay,
//! the rendering geometry, and the PDF-resolution pipeline's decisions.
//! Transport (HTTP), the terminal driver and the file write live outside,
//! in the surrounding application.

pub mod error;
pub mod json;
pub mod nav;
pub mod paper;
pub mod render;
pub mod resolve;
pub mod search;
pub mod strutil;
pub mod urls;
