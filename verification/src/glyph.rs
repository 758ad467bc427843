//! The basic glyph unit — name, advance width, representation, optional
//! anchor — and its pre-layout wrappers.

use crate::anchor::Anchor;
use crate::encoding::EncPos;
use crate::rep::Rep;
use vstd::prelude::*;

verus! {

/// The smallest building block of a glyph: name, advance width,
/// representation, and optional anchor.
pub struct GlyphBasic {
    pub name: String,
    pub width: usize,
    pub rep: Rep,
    pub anchor: Option<Anchor>,
}

impl GlyphBasic {
    pub fn new(name: String, width: usize, rep: Rep, anchor: Option<Anchor>) -> (r: Self)
        ensures
            r.name == name,
            r.width == width,
            r.rep == rep,
            r.anchor == anchor,
    {
        Self { name, width, rep, anchor }
    }
}

/// A `GlyphBasic` that has been assigned an external encoding position.
pub struct GlyphEnc {
    pub glyph: GlyphBasic,
    pub enc: EncPos,
}

impl GlyphEnc {
    pub fn new_from_basic(glyph: GlyphBasic, enc: EncPos) -> (r: Self)
        ensures
            r.glyph == glyph,
            r.enc == enc,
    {
        Self { glyph, enc }
    }

    pub fn new_from_parts(enc: EncPos, name: String, width: usize, rep: Rep) -> (r: Self)
        ensures
            r.glyph.name == name,
            r.glyph.width == width,
            r.glyph.rep == rep,
            r.glyph.anchor is None,
            r.enc == enc,
    {
        Self { glyph: GlyphBasic::new(name, width, rep, None), enc }
    }
}

/// A constant glyph descriptor: a name and outline program, with an
/// optional explicit width and an optional anchor.
pub struct GlyphDescriptor {
    pub name: String,
    pub spline_set: String,
    pub width: Option<usize>,
    pub anchor: Option<Anchor>,
}

impl GlyphDescriptor {
    pub fn new(name: String, spline_set: String) -> (r: Self)
        ensures
            r.name == name,
            r.spline_set == spline_set,
            r.width is None,
            r.anchor is None,
    {
        Self { name, spline_set, width: None, anchor: None }
    }

    pub fn new_with_width(name: String, width: usize, spline_set: String) -> (r: Self)
        ensures
            r.name == name,
            r.spline_set == spline_set,
            r.width == Some(width),
            r.anchor is None,
    {
        Self { name, spline_set, width: Some(width), anchor: None }
    }

    pub fn new_with_anchor(name: String, anchor: Anchor, spline_set: String) -> (r: Self)
        ensures
            r.name == name,
            r.spline_set == spline_set,
            r.width is None,
            r.anchor == Some(anchor),
    {
        Self { name, spline_set, width: None, anchor: Some(anchor) }
    }
}

} // verus!
