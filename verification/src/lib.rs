pub mod config;
pub mod render;
pub mod report;
pub mod text;

pub use crate::config::{get_args, is_stdin, Config, UsageError};
pub use crate::render::{format_counts, format_failure, format_line};
pub use crate::report::{report_input, report_total, run, Output, Report};
pub use crate::text::{count, count_text, is_whitespace, FileInfo, ReadError};
