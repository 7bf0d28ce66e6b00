//! A bridge between a host runtime and a grammar-constrained token decoder.
//!
//! The host asks which vocabulary tokens may come next (`sampling_mask`),
//! samples one of them, and reports it back (`advance_parser`). The modules
//! here hold the vocabulary wire format, the byte-exact segmentation rule,
//! the sampling masks and the two-phase session state machine.

pub mod constraint;
pub mod laws;
pub mod mask;
pub mod parser;
pub mod segment;
pub mod session;
pub mod tokenizer;
pub mod trie;
pub mod vocab;
