//! Analysis core of a static security auditor for CI workflow definitions.
//!
//! The crate has three parts: a structural model of a workflow document
//! (`models`), a version-resolution state machine that turns an action
//! reference into advisory lookups (`audit`), and a locator that maps a
//! structural location (job id, step index) back onto the exact byte span
//! of the original document (`locate`). Findings and their severity
//! vocabulary live in `finding`.

pub mod audit;
pub mod locate;
pub mod finding;
pub mod models;
