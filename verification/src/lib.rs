//! Format-driven extraction of a timezone-aware timestamp from one line of
//! structured log text.
//!
//! A format string places two token markers, `%d` (calendar date) and `%t`
//! (time of day), among arbitrary literal text. Validation confirms both
//! markers are present and records which comes first; extraction strips the
//! declared literal text from a line and delegates the remaining token
//! region, under a fixed layout, to an external date/time library.

pub mod delegate;
pub mod format;
pub mod laws;
pub mod markers;
pub mod parser;
pub mod timestamp;

pub use format::FormatSpecification;
pub use format::TokenOrder;
pub use format::validate;
pub use parser::ChronoDateTimeParser;
pub use parser::DateTimeParser;
pub use timestamp::ParseFailure;
pub use timestamp::Timestamp;
