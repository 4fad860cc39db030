//! Parsing of tmpfiles.d-style directive lines into typed entries.
//!
//! The grammar of a line is stated in [`model`] as spec functions over the
//! line's characters; [`entry`] holds the parsed record and the verified
//! parser, which is proved to produce exactly what the model describes.

pub mod model;
pub mod scan;
pub mod octal;
pub mod mode;
pub mod entry;
pub mod source;
pub mod laws;

pub use entry::{parse_line, Entry};
pub use model::{LineType, Modifier};
pub use source::{entry_from_config_line, entry_from_trimmed};
