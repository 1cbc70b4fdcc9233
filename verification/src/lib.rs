//! Parser for NMEA 0183 sentences.
//!
//! A sentence is one ASCII line of the form
//! `$<talker><type>,<field>,...,<field>*<hex checksum>`.  [`parser::Parser::parse_line`]
//! validates the framing and the checksum, identifies the talker and the
//! three-letter sentence type, splits the payload into fields and hands them
//! to the decoder for that type, yielding a typed record or a precise error.
//!
//! Every decoder is specified exactly: the result of parsing a line is pinned,
//! field by field, to a mathematical description of the sentence grammar.

/// Per-sentence-type records and their field decoders.
pub mod commands;
/// Line-level parsing: framing, checksum, talker and type dispatch.
pub mod parser;
/// Character-level decoders for numerals, decimals, times, dates and coordinates.
pub mod primitives;
/// Shared value types, enumerated codes and the error model.
pub mod types;
