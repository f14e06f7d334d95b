//! Section-aware field extractor for audiobook "NFO" metadata files.
//!
//! The library parses a sequence of text lines: it segments the stream into
//! named sections ("General Information", "Media Information",
//! "Book Description"), tokenizes each line with Unicode word segmentation,
//! and maps recognized leading tokens to typed fields, tolerating
//! unrecognized or malformed lines without aborting.

pub mod fields;
pub mod laws;
pub mod parser;
pub mod words;

pub use fields::Duration;
pub use fields::Encoded;
pub use fields::GeneralInformation;
pub use fields::MediaInformation;
pub use fields::Nfo;
pub use fields::Section;
pub use fields::Source;
pub use fields::Warning;
pub use words::aux_string;
