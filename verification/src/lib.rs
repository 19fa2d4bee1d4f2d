//! A typewriter-style printing library: text is rendered one Unicode scalar
//! value at a time, with a configurable pause after each character.
//!
//! The library is split into three parts:
//! - [`table::CharDurations`]: an immutable table mapping characters to wait
//!   times in milliseconds, with a fallback default.
//! - [`builder`]: runtime-validated construction of a table from duration
//!   literals tagged with a unit (`"ms"` or `"s"`); an unrecognized unit tag
//!   is rejected before any table is produced.
//! - [`printer::Writer`]: turns a table and a text into the exact sequence of
//!   print steps (character plus optional positive wait) that a caller
//!   performs against its output stream.
//!
//! The library itself performs no I/O: a thin shell around it writes each
//! character to standard output, flushes, and blocks for the wait the step
//! carries.

pub mod builder;
pub mod printer;
pub mod table;

pub use builder::build_default_only;
pub use builder::build_overrides_only;
pub use builder::build_table;
pub use builder::duration_from_tag;
pub use builder::parse_unit;
pub use builder::to_millis;
pub use builder::TimeUnit;
pub use builder::UnrecognizedUnitTag;
pub use printer::flush_failure_message;
pub use printer::Writer;
pub use table::CharDurations;
