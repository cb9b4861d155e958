//! Translates a compact geometry-shorthand notation into English sentences
//! and transliterates it into a phonetic pronunciation string.

pub mod conditions;
pub mod edit;
pub mod laws;
pub mod measures;
pub mod point;
pub mod pronounce;
pub mod search;
pub mod shapes;
pub mod statement;
pub mod tables;
pub mod text;
pub mod translate;
pub mod translator;
