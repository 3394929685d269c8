//! Extraction of deduplicated, time-stamped programming-language concepts
//! ("knowledge components") from a stream of OCR'd code fragments.
//!
//! The crate resolves the fragment language from a text hint or an external
//! model verdict, tokenizes fragments with the matching lexical grammar,
//! classifies each token into a hierarchical concept taxonomy, and merges the
//! results into an insertion-ordered registry deduplicated by token kind.

pub mod analyzer;
pub mod classifier;
pub mod cjlexer;
pub mod cjparser;
pub mod pylexer;
pub mod pyparser;
pub mod knowledge_component;
pub mod parser;
pub mod strutil;
