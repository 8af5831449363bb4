//! Conversion between full-width (zenkaku) and half-width (hankaku)
//! Japanese text, for three independently toggleable character classes:
//! ASCII letters and punctuation, digits, and katakana (including the
//! voiced and semi-voiced diacritic marks).
//!
//! The correspondence tables live in [`tables`]; the two transformation
//! passes, [`convert::zen_to_han`] and [`convert::han_to_zen`], apply them
//! to a string left to right. Their contracts pin the output down exactly,
//! character by character, via the spec functions of [`convert`].

pub mod args;
pub mod convert;
pub mod laws;
pub mod tables;

pub use args::parse_args;
pub use convert::han_to_zen;
pub use convert::zen_to_han;

