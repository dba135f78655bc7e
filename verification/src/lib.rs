//! State model and scheduling rules of a terminal process dashboard.
//!
//! The dashboard shows the running processes ranked by CPU usage, beside
//! rolling charts of overall CPU and memory use. This library holds what
//! the dashboard keeps and decides; reading the operating system, drawing
//! and reading keys are the caller's part.
//!
//! - [`status`] and [`record`]: what a collector reports of a process, and
//!   what the table shows of it.
//! - [`history`]: the sliding window behind each chart.
//! - [`keys`] and [`order`]: the display order of rows, highest CPU usage
//!   first and stable among equals.
//! - [`table`]: the rows together with the index from identity to
//!   position.
//! - [`dashboard`]: the whole state that is drawn.
//! - [`scheduler`]: the loop's decisions, one action at a time.

pub mod dashboard;
pub mod history;
pub mod keys;
pub mod order;
pub mod record;
pub mod scheduler;
pub mod status;
pub mod table;
