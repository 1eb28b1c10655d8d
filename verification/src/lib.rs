//! Data model, tolerant scalar decoding, text rendering and pagination rules
//! for card search results.

pub mod card;
pub mod collection;
pub mod fetch;
pub mod output;
pub mod scalar;
pub mod text;
