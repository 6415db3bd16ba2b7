//! A language metadata registry: a closed catalogue of natural languages,
//! each annotated with standardized identifiers and writing-system
//! information.
//!
//! The registry exposes the enumeration of supported languages and four
//! total, immutable lookups over it: the two-letter code, the three-letter
//! code, the set of writing systems, and the orthography-specific unique
//! characters. A textual name can be parsed back into a language tag.

pub mod alphabet;
pub mod isocode;
pub mod language;
pub mod laws;
