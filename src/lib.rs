//! Extraction of typed values from text through small scanf-style templates.
//!
//! A template such as `"hello {}!"` is compiled once into a [`CompiledPattern`]: a chain of
//! literal anchors and placeholders. The pattern is then matched against input bytes, and
//! each placeholder's capture is decoded by a [`TryParse`] codec (decimal by default, or
//! [`Hex`] / [`Binary`] for integers), or, in a multi-value match, as the [`Kind`] the
//! caller names for it.

pub mod codec;
pub mod error;
pub mod matcher;
pub mod pattern;

pub use codec::{decode_int, Binary, Hex, Integer, TryParse};
pub use error::{CompileError, Failure, IntError, TryParseError};
pub use matcher::{decode_as, parse_single, ParseMultiple, try_parse, try_parse_into, try_scan, try_scan_as, try_scan_into, Extracted, Kind, Value};
pub use pattern::{compile_multi, compile_single, Base, CompiledPattern, Segment};
