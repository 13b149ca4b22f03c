//! Turns a configured HTML page into an Atom-style feed: a compact selector
//! grammar, an extraction engine over a structural-matching library, an entry
//! builder with link normalization and stable synthetic identifiers, and a
//! feed assembler that rejects empty results.

pub mod config;
pub mod dom;
pub mod entry;
pub mod errors;
pub mod extract;
pub mod feed;
pub mod ident;
pub mod selector;
