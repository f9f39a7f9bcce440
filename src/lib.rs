//! Valve KeyValues (VDF) text: a grammar and parser, the duplicate-key merge
//! into an ordered document, path lookup, a flat path-to-leaf view and
//! numeric ordering of list-like nodes; plus the Steam protocol
//! enumerations, Steam IDs, VPK headers and hashing helpers.
//!
//! - `grammar`: the text grammar and the parser that yields entries
//! - `kv`: documents, the merge, parsing and lookup
//! - `flat`: the flat view of a document
//! - `order`: children in numeric order of their keys
//! - `laws`: what parsing and merging guarantee
//! - `tokens`, `escape`, `scalar`: a lossless tokenizer, escaping, and
//!   scalar text of booleans
//! - `servers`: the server list of a Web API response
//! - `enums`, `eresult`, `netheader`: protocol enumerations and UDP headers
//! - `id`: Steam IDs and their Steam2 and Steam3 text forms
//! - `vpk`: the header of a VPK directory file
//! - `hash`: SHA-1 and CRC-32

pub mod text;
pub mod grammar;
pub mod kv;
pub mod flat;
pub mod order;
pub mod laws;
pub mod tokens;
pub mod escape;
pub mod scalar;
pub mod servers;
pub mod enums;
pub mod eresult;
pub mod netheader;
pub mod id;
pub mod vpk;
pub mod hash;
