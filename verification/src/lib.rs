//! Conversion of Unicode Tamil text into a glyph-ordered legacy font layout.
//!
//! Unicode writes Tamil in the order in which it is spoken; the legacy font
//! has one code point for each glyph and wants them in the order in which they
//! are drawn. The [`segment`] module groups the characters of a text into
//! entities, and the [`convert`] module writes each entity out as glyphs.
//! The glyph tables are in [`glyphs`], the character classes in [`script`],
//! and [`laws`] holds what is proved of segmentation and conversion together.
//! What is taken on trust of `nom` and of the standard library is in
//! [`primitives`].

pub mod script;
pub mod entity;
pub mod primitives;
pub mod segment;
pub mod glyphs;
pub mod convert;
pub mod laws;

pub use crate::convert::{
    conv_composed_entity, conv_entity, conv_special_entity, convert_unic_stmzh,
    try_convert_unic_stmzh,
};
pub use crate::entity::{MarkType, ParseError, TamilDetailedEntity};
pub use crate::segment::{parse_composed_entity, parse_entity, parse_separate_entity, ParseResult};
