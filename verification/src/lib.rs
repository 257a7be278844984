//! Decoder for NOAA "decoded METAR" plain-text weather bulletins.
//!
//! A bulletin is a fixed-order sequence of lines (station header, timestamp,
//! wind, visibility, optional sky conditions, optional weather description,
//! temperature, dew point, relative humidity, pressure, and an ignored coded
//! trailer). The parsers in [`weather`] consume the report top to bottom and
//! either produce a fully populated record or fail on the first malformed
//! mandatory field. [`grammar`] is the functional specification every parser
//! is verified against, and [`laws`] proves the grammar's document-level
//! guarantees. [`cli`] interprets the command-line surface from plain
//! argument vectors.

pub mod cli;
pub mod grammar;
pub mod laws;
pub mod number;
pub mod text;
pub mod types;
pub mod weather;
