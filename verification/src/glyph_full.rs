//! The fully resolved glyph: a basic glyph with its encoding, lookup kind
//! and combining class, and the rendering of its complete per-glyph text
//! block.

use crate::anchor::{spec_anchor_gen, Anchor};
use crate::encoding::{spec_encoding_gen, Encoding};
use crate::glyph::{GlyphBasic, GlyphEnc};
use crate::lookups::{spec_lookups_gen, spec_lookups_wf, Lookups, NasinNanpaVariation};
use crate::rep::{spec_rep_gen, Rep};
use crate::strutil::{dec_nat, spec_contains, spec_dec_nat, spec_starts_with, str_contains, str_eq, str_starts_with};
use vstd::prelude::*;
use vstd::string::StrSliceExecFns;
use vstd::string::StringExecFns;

verus! {

/// How a glyph participates in the cartouche-extension and
/// continuation-mark substitution lookups: with the full-height extension,
/// the half-height one, as a bare participant, or not at all.
#[derive(Clone, Copy)]
pub enum Cc {
    Full,
    Half,
    Participant,
    NonCombining,
}

/// The combining-class substitution clauses for a glyph.
pub open spec fn spec_cc_gen(cc: Cc, full_name: Seq<char>) -> Seq<char> {
    match cc {
        Cc::Full => "MultipleSubs2: \"'cc01' CART\" "@ + full_name
            + " combCartExtTok\nMultipleSubs2: \"'cc02' CONT\" "@ + full_name
            + " combLongGlyphExtTok\n"@,
        Cc::Half => "MultipleSubs2: \"'cc01' CART\" "@ + full_name
            + " combCartExtHalfTok\nMultipleSubs2: \"'cc02' CONT\" "@ + full_name
            + " combLongGlyphExtHalfTok\n"@,
        Cc::Participant => "MultipleSubs2: \"'cc01' CART\" "@ + full_name
            + " combCartExtNoneTok\nMultipleSubs2: \"'cc02' CONT\" "@ + full_name
            + " combCartExtNoneTok\n"@,
        Cc::NonCombining => Seq::empty(),
    }
}

/// Whether a glyph's decorated name carries the word-joiner flags line.
pub open spec fn spec_flags_marked(full_name: Seq<char>) -> bool {
    ||| full_name == "ZWJ"@
    ||| full_name == "ZWNJ"@
    ||| spec_starts_with(full_name, "VAR"@)
    ||| spec_starts_with(full_name, "arrow"@)
    ||| full_name == "joinStackTok"@
    ||| full_name == "joinScaleTok"@
    ||| spec_contains(full_name, "space"@)
    ||| full_name == "combCartExtNoneTok"@
}

/// The flags line for a glyph: `Flags: W` for the marked names, nothing
/// otherwise.
pub open spec fn spec_flags_gen(full_name: Seq<char>) -> Seq<char> {
    if spec_flags_marked(full_name) {
        "Flags: W\n"@
    } else {
        Seq::empty()
    }
}

/// The anchor clause of an optional anchor.
pub open spec fn spec_anchor_opt_gen(a: Option<Anchor>) -> Seq<char> {
    match a {
        Some(a) => spec_anchor_gen(a),
        None => Seq::empty(),
    }
}

/// A fully resolved glyph.
pub struct GlyphFull {
    pub glyph: GlyphBasic,
    pub encoding: Encoding,
    pub lookups: Lookups,
    pub cc_subs: Cc,
}

/// The complete per-glyph text block.  A glyph whose name contains "empty"
/// is a filler and renders as a short zero-width record under its bare
/// name; any other glyph renders under its decorated name with its width,
/// flags, anchor, drawable content, derived rules, combining-class clauses
/// and fill color.
pub open spec fn spec_glyph_full_gen(
    g: GlyphFull,
    prefix: Seq<char>,
    suffix: Seq<char>,
    color: Seq<char>,
    variation: NasinNanpaVariation,
) -> Seq<char> {
    if spec_contains(g.glyph.name@, "empty"@) {
        "\nStartChar: "@ + g.glyph.name@ + "\n"@ + spec_encoding_gen(g.encoding)
            + "\nWidth: 0\nLayerCount: 2\nColour: "@ + color + "\nEndChar\n"@
    } else {
        let full_name = prefix + g.glyph.name@ + suffix;
        "\nStartChar: "@ + full_name + "\n"@ + spec_encoding_gen(g.encoding) + "\nWidth: "@
            + spec_dec_nat(g.glyph.width as nat) + "\n"@ + spec_flags_gen(full_name)
            + spec_anchor_opt_gen(g.glyph.anchor) + "LayerCount: 2\n"@ + spec_rep_gen(g.glyph.rep)
            + spec_lookups_gen(g.lookups, g.glyph.name@, full_name, variation) + spec_cc_gen(
            g.cc_subs,
            full_name,
        ) + "Colour: "@ + color + "\nEndChar\n"@
    }
}

/// Whether rendering is defined for a glyph under the given decoration: a
/// filler always renders; any other glyph needs well-formed names for rule
/// synthesis and a machine-representable anchor position.
pub open spec fn spec_glyph_renderable(
    g: GlyphFull,
    prefix: Seq<char>,
    suffix: Seq<char>,
    variation: NasinNanpaVariation,
) -> bool {
    spec_contains(g.glyph.name@, "empty"@) || {
        &&& spec_lookups_wf(g.lookups, g.glyph.name@, prefix + g.glyph.name@ + suffix, variation)
        &&& (g.glyph.anchor matches Some(a) ==> a.pos.0 != isize::MIN && a.pos.1 != isize::MIN)
    }
}

impl GlyphFull {
    pub fn new_from_basic(glyph: GlyphBasic, encoding: Encoding, lookups: Lookups, cc_subs: Cc) -> (r: Self)
        ensures
            r.glyph == glyph,
            r.encoding == encoding,
            r.lookups == lookups,
            r.cc_subs == cc_subs,
    {
        Self { glyph, encoding, lookups, cc_subs }
    }

    pub fn new_from_enc(glyph: GlyphEnc, ff_pos: usize, lookups: Lookups, cc_subs: Cc) -> (r: Self)
        ensures
            r.glyph == glyph.glyph,
            r.encoding == (Encoding { ff_pos, enc_pos: glyph.enc }),
            r.lookups == lookups,
            r.cc_subs == cc_subs,
    {
        Self { glyph: glyph.glyph, encoding: Encoding::new(ff_pos, glyph.enc), lookups, cc_subs }
    }

    pub fn new_from_parts(
        name: String,
        width: usize,
        rep: Rep,
        anchor: Option<Anchor>,
        encoding: Encoding,
        lookups: Lookups,
        cc_subs: Cc,
    ) -> (r: Self)
        ensures
            r.glyph.name == name,
            r.glyph.width == width,
            r.glyph.rep == rep,
            r.glyph.anchor == anchor,
            r.encoding == encoding,
            r.lookups == lookups,
            r.cc_subs == cc_subs,
    {
        Self { glyph: GlyphBasic::new(name, width, rep, anchor), encoding, lookups, cc_subs }
    }

    /// Whether rendering is defined for this glyph under the given
    /// decoration; false marks a descriptor-table error.
    pub fn renderable(&self, prefix: &str, suffix: &str, variation: NasinNanpaVariation) -> (b:
        bool)
        ensures
            b == spec_glyph_renderable(*self, prefix@, suffix@, variation),
    {
        if str_contains(self.glyph.name.as_str(), "empty") {
            return true;
        }
        let mut full_name = String::new();
        full_name.append(prefix);
        full_name.append(self.glyph.name.as_str());
        full_name.append(suffix);
        let lk_ok = self.lookups.wf_check(
            self.glyph.name.as_str(),
            full_name.as_str(),
            variation,
        );
        let anchor_ok = match &self.glyph.anchor {
            Some(a) => a.pos.0 != isize::MIN && a.pos.1 != isize::MIN,
            None => true,
        };
        lk_ok && anchor_ok
    }

    /// Renders the complete per-glyph text block.
    #[verifier::rlimit(100)]
    pub fn gen(
        &self,
        prefix: &str,
        suffix: &str,
        color: &str,
        variation: NasinNanpaVariation,
    ) -> (r: String)
        requires
            spec_glyph_renderable(*self, prefix@, suffix@, variation),
        ensures
            r@ == spec_glyph_full_gen(*self, prefix@, suffix@, color@, variation),
    {
        let name = self.glyph.name.as_str();
        let encoding = self.encoding.gen();
        if str_contains(name, "empty") {
            let mut s = String::from_str("\nStartChar: ");
            s.append(name);
            s.append("\n");
            s.append(encoding.as_str());
            s.append("\nWidth: 0\nLayerCount: 2\nColour: ");
            s.append(color);
            s.append("\nEndChar\n");
            proof {
                assert(s@ =~= spec_glyph_full_gen(*self, prefix@, suffix@, color@, variation));
            }
            return s;
        }
        let mut full_name = String::new();
        full_name.append(prefix);
        full_name.append(name);
        full_name.append(suffix);
        let mut s = String::from_str("\nStartChar: ");
        s.append(full_name.as_str());
        s.append("\n");
        s.append(encoding.as_str());
        s.append("\nWidth: ");
        let width = dec_nat(self.glyph.width);
        s.append(width.as_str());
        s.append("\n");
        if flags_marked(full_name.as_str()) {
            s.append("Flags: W\n");
        }
        match &self.glyph.anchor {
            Some(a) => {
                let anchor = a.gen();
                s.append(anchor.as_str());
            },
            None => {},
        }
        s.append("LayerCount: 2\n");
        let representation = self.glyph.rep.gen();
        s.append(representation.as_str());
        let lookups = self.lookups.gen(name, full_name.as_str(), variation);
        s.append(lookups.as_str());
        append_cc(&mut s, self.cc_subs, full_name.as_str());
        s.append("Colour: ");
        s.append(color);
        s.append("\nEndChar\n");
        proof {
            assert(s@ =~= spec_glyph_full_gen(*self, prefix@, suffix@, color@, variation));
        }
        s
    }
}

/// Whether the decorated name carries the word-joiner flags line.
fn flags_marked(full_name: &str) -> (b: bool)
    ensures
        b == spec_flags_marked(full_name@),
{
    str_eq(full_name, "ZWJ") || str_eq(full_name, "ZWNJ") || str_starts_with(full_name, "VAR")
        || str_starts_with(full_name, "arrow") || str_eq(full_name, "joinStackTok") || str_eq(
        full_name,
        "joinScaleTok",
    ) || str_contains(full_name, "space") || str_eq(full_name, "combCartExtNoneTok")
}

/// Appends the combining-class substitution clauses.
fn append_cc(s: &mut String, cc: Cc, full_name: &str)
    ensures
        final(s)@ == old(s)@ + spec_cc_gen(cc, full_name@),
{
    match cc {
        Cc::Full => {
            s.append("MultipleSubs2: \"'cc01' CART\" ");
            s.append(full_name);
            s.append(" combCartExtTok\nMultipleSubs2: \"'cc02' CONT\" ");
            s.append(full_name);
            s.append(" combLongGlyphExtTok\n");
        },
        Cc::Half => {
            s.append("MultipleSubs2: \"'cc01' CART\" ");
            s.append(full_name);
            s.append(" combCartExtHalfTok\nMultipleSubs2: \"'cc02' CONT\" ");
            s.append(full_name);
            s.append(" combLongGlyphExtHalfTok\n");
        },
        Cc::Participant => {
            s.append("MultipleSubs2: \"'cc01' CART\" ");
            s.append(full_name);
            s.append(" combCartExtNoneTok\nMultipleSubs2: \"'cc02' CONT\" ");
            s.append(full_name);
            s.append(" combCartExtNoneTok\n");
        },
        Cc::NonCombining => {},
    }
    proof {
        assert(s@ =~= old(s)@ + spec_cc_gen(cc, full_name@));
    }
}

} // verus!
