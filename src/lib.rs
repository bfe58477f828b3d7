//! Turns consensus-server log lines into compact symbolic event traces.
//!
//! - `classify`: the header shape of a line and the component table.
//! - `sanitize`: the ordered chain of regex rewrites that yields canonical
//!   messages.
//! - `interner`: ids for canonical messages, in first-seen order.
//! - `labels`: the table from canonical message to short label.
//! - `collapse`: suppression of the third and later repeats in a row.
//! - `output`: the text of the numeric trace, labeled trace and mapping.
//! - `pipeline`: the running state, one line at a time, and its batches.
//! - `laws`: properties of whole runs.
//! - `text`: character-level helpers.

pub mod classify;
pub mod collapse;
pub mod interner;
pub mod labels;
pub mod laws;
pub mod output;
pub mod pipeline;
pub mod sanitize;
pub mod text;
