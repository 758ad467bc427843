//! Generator for a FontForge spline-font source document describing a
//! constructed script's glyph repertoire.
//!
//! The crate models a glyph's dual position (font-internal index and external
//! code point), its drawable representation (an outline program plus glyph
//! references), and the OpenType lookup rules derived from each glyph's
//! naming convention.  A block layout engine assigns contiguous internal
//! positions and pads every block to a 16-glyph page, and a classification
//! assembler derives the contextual- and chain-substitution class tables from
//! the finished blocks.  Every rendering function's output is pinned down
//! exactly, character for character, by its contract.

pub mod anchor;
pub mod block;
pub mod classes;
pub mod encoding;
pub mod glyph;
pub mod glyph_full;
pub mod lookups;
pub mod rep;
pub mod strutil;
