//! The block layout engine: assigns sequential internal positions to a run
//! of glyphs, advances external encodings where requested, and pads every
//! block to the 16-glyph page alignment the document's internal-position
//! table requires.

use crate::anchor::Anchor;
use crate::encoding::{spec_enc_pos_plus, EncPos, Encoding};
use crate::glyph::{GlyphBasic, GlyphDescriptor, GlyphEnc};
use crate::glyph_full::{spec_glyph_full_gen, spec_glyph_renderable, Cc, GlyphFull};
use crate::lookups::{spec_lookups_from_mode, Lookups, LookupsMode, NasinNanpaVariation};
use crate::rep::{Ref, Rep};
use crate::strutil::{dec4, spec_dec4};
use vstd::prelude::*;
use vstd::string::StringExecFns;

verus! {

/// The number of filler glyphs appended after `n` requested glyphs:
/// `15 - ((n + 15) % 16)`, which lies in [0, 15] and brings the count to
/// the next multiple of 16 at or above `n` — a count already aligned
/// receives no filler.
pub open spec fn spec_pad_count(n: nat) -> nat {
    (15 - ((n + 15) % 16)) as nat
}

/// A filler glyph: named `empty<position>` with the position zero-padded
/// to four digits, the given width, no drawable content, no encoding, no
/// rules and no combining class.
pub open spec fn spec_is_filler(g: GlyphFull, pos: usize, width: usize) -> bool {
    &&& g.glyph.name@ == "empty"@ + spec_dec4(pos as nat)
    &&& g.glyph.width == width
    &&& g.glyph.rep.spline_set@.len() == 0
    &&& g.glyph.rep.references@.len() == 0
    &&& g.glyph.anchor is None
    &&& g.encoding.ff_pos == pos
    &&& g.encoding.enc_pos is Unencoded
    &&& g.lookups is NoRules
    &&& g.cc_subs is NonCombining
}

/// A descriptor's width, or the fallback where it gives none.
pub open spec fn spec_desc_width(d: GlyphDescriptor, fallback: usize) -> usize {
    match d.width {
        Some(w) => w,
        None => fallback,
    }
}

/// Every glyph of the block sits at internal position `start` plus its
/// index: the block occupies one contiguous run of positions.
pub open spec fn spec_block_positions_from(b: GlyphBlock, start: nat) -> bool {
    forall|i: int|
        0 <= i < b.glyphs@.len() ==> #[trigger] b.glyphs@[i].encoding.ff_pos == start + i
}

/// The concatenated per-glyph text of a run of glyphs.
pub open spec fn spec_glyphs_gen(
    gs: Seq<GlyphFull>,
    prefix: Seq<char>,
    suffix: Seq<char>,
    color: Seq<char>,
    variation: NasinNanpaVariation,
) -> Seq<char>
    decreases gs.len(),
{
    if gs.len() == 0 {
        Seq::empty()
    } else {
        spec_glyphs_gen(gs.drop_last(), prefix, suffix, color, variation) + spec_glyph_full_gen(
            gs.last(),
            prefix,
            suffix,
            color,
            variation,
        )
    }
}

/// The rendering of a whole block: its glyphs in order, each under the
/// block's decoration and fill color.
pub open spec fn spec_block_gen(b: GlyphBlock, variation: NasinNanpaVariation) -> Seq<char> {
    spec_glyphs_gen(b.glyphs@, b.prefix@, b.suffix@, b.color@, variation)
}

/// Whether rendering is defined for every glyph of the block.
pub open spec fn spec_block_renderable(b: GlyphBlock, variation: NasinNanpaVariation) -> bool {
    forall|i: int|
        0 <= i < b.glyphs@.len() ==> spec_glyph_renderable(
            #[trigger] b.glyphs@[i],
            b.prefix@,
            b.suffix@,
            variation,
        )
}

/// A named, contiguous run of fully resolved glyphs: the glyphs, the name
/// prefix and suffix applied to each, and the fill color.
pub struct GlyphBlock {
    pub glyphs: Vec<GlyphFull>,
    pub prefix: String,
    pub suffix: String,
    pub color: String,
}

/// The number of glyphs in the blocks before index `a` of the run.
pub open spec fn spec_prefix_glyphs(bs: Seq<GlyphBlock>, a: int) -> nat
    decreases a,
{
    if a <= 0 || bs.len() == 0 {
        0
    } else {
        bs[0].glyphs@.len() + spec_prefix_glyphs(bs.drop_first(), a - 1)
    }
}

/// The total glyph count of a run of blocks.
pub open spec fn spec_total_glyphs(bs: Seq<GlyphBlock>) -> nat {
    spec_prefix_glyphs(bs, bs.len() as int)
}

/// The blocks were laid out consecutively from `start`: each block's
/// positions begin where the previous block's ended.
pub open spec fn spec_blocks_laid_out(bs: Seq<GlyphBlock>, start: nat) -> bool
    decreases bs.len(),
{
    if bs.len() == 0 {
        true
    } else {
        spec_block_positions_from(bs[0], start) && spec_blocks_laid_out(
            bs.drop_first(),
            start + bs[0].glyphs@.len(),
        )
    }
}

pub proof fn lemma_prefix_glyphs_step(bs: Seq<GlyphBlock>, a: int)
    requires
        0 <= a < bs.len(),
    ensures
        spec_prefix_glyphs(bs, a + 1) == spec_prefix_glyphs(bs, a) + bs[a].glyphs@.len(),
    decreases a,
{
    if a > 0 {
        lemma_prefix_glyphs_step(bs.drop_first(), a - 1);
        assert(spec_prefix_glyphs(bs, a + 1) == bs[0].glyphs@.len() + spec_prefix_glyphs(
            bs.drop_first(),
            a,
        ));
        assert(spec_prefix_glyphs(bs, a) == bs[0].glyphs@.len() + spec_prefix_glyphs(
            bs.drop_first(),
            a - 1,
        ));
        assert(bs[a] == bs.drop_first()[a - 1]);
    } else {
        assert(spec_prefix_glyphs(bs, 1) == bs[0].glyphs@.len() + spec_prefix_glyphs(
            bs.drop_first(),
            0,
        ));
    }
}

/// Internal positions are contiguous across a consecutively laid out run
/// of blocks: the glyph at index `i` of block `a` sits at `start` plus the
/// number of glyphs before it.  In particular the final counter value,
/// `start` plus the total count, is one past the last position.
pub proof fn lemma_blocks_positions(bs: Seq<GlyphBlock>, start: nat)
    requires
        spec_blocks_laid_out(bs, start),
    ensures
        forall|a: int, i: int|
            0 <= a < bs.len() && 0 <= i < bs[a].glyphs@.len()
                ==> #[trigger] bs[a].glyphs@[i].encoding.ff_pos == start + spec_prefix_glyphs(
                bs,
                a,
            ) + i,
    decreases bs.len(),
{
    if bs.len() > 0 {
        lemma_blocks_positions(bs.drop_first(), start + bs[0].glyphs@.len());
        assert forall|a: int, i: int|
            0 <= a < bs.len() && 0 <= i < bs[a].glyphs@.len() implies #[trigger] bs[a].glyphs@[i].encoding.ff_pos
            == start + spec_prefix_glyphs(bs, a) + i by {
            if a > 0 {
                assert(bs[a] == bs.drop_first()[a - 1]);
                assert(bs.drop_first()[a - 1].glyphs@[i].encoding.ff_pos == start
                    + bs[0].glyphs@.len() + spec_prefix_glyphs(bs.drop_first(), a - 1) + i);
            }
        }
    }
}

/// Internal positions are strictly increasing across the entire run in
/// block-declaration order.
pub proof fn lemma_blocks_positions_increasing(bs: Seq<GlyphBlock>, start: nat)
    requires
        spec_blocks_laid_out(bs, start),
    ensures
        forall|a: int, i: int, b: int, j: int|
            0 <= a < bs.len() && 0 <= i < bs[a].glyphs@.len() && 0 <= b < bs.len() && 0 <= j
                < bs[b].glyphs@.len() && (a < b || (a == b && i < j))
                ==> #[trigger] bs[a].glyphs@[i].encoding.ff_pos
                < #[trigger] bs[b].glyphs@[j].encoding.ff_pos,
{
    lemma_blocks_positions(bs, start);
    assert forall|a: int, i: int, b: int, j: int|
        0 <= a < bs.len() && 0 <= i < bs[a].glyphs@.len() && 0 <= b < bs.len() && 0 <= j
            < bs[b].glyphs@.len() && (a < b || (a == b && i < j)) implies #[trigger] bs[a].glyphs@[i].encoding.ff_pos
        < #[trigger] bs[b].glyphs@[j].encoding.ff_pos by {
        if a < b {
            lemma_prefix_glyphs_mono(bs, a + 1, b);
            lemma_prefix_glyphs_step(bs, a);
        }
    }
}

pub proof fn lemma_prefix_glyphs_mono(bs: Seq<GlyphBlock>, a: int, b: int)
    requires
        0 <= a <= b <= bs.len(),
    ensures
        spec_prefix_glyphs(bs, a) <= spec_prefix_glyphs(bs, b),
    decreases b - a,
{
    if a < b {
        lemma_prefix_glyphs_mono(bs, a, b - 1);
        lemma_prefix_glyphs_step(bs, b - 1);
    }
}

/// The padding always lies in [0, 15] and brings the glyph count to a
/// multiple of 16.
pub proof fn lemma_pad_count_aligns(n: nat)
    ensures
        spec_pad_count(n) <= 15,
        (n + spec_pad_count(n)) % 16 == 0,
{
    let m = (n + 15) % 16;
    vstd::arithmetic::div_mod::lemma_mod_bound(n + 15 as int, 16);
    let q = (n + 15) / 16;
    vstd::arithmetic::div_mod::lemma_fundamental_div_mod(n + 15 as int, 16);
    assert(n + spec_pad_count(n) == q * 16);
    vstd::arithmetic::div_mod::lemma_mod_multiples_basic(q as int, 16);
}

/// The padding for `n` requested glyphs, `15 - ((n + 15) % 16)`.
fn pad_count(n: usize) -> (r: usize)
    requires
        n + 15 <= usize::MAX,
    ensures
        r == spec_pad_count(n as nat),
{
    15 - ((n + 15) % 16)
}

impl GlyphBlock {
    /// A block of `count` filler glyphs, advancing the internal-position
    /// counter past them.
    pub fn new_empty(ff_pos: &mut usize, count: usize, width: usize) -> (r: Self)
        requires
            *old(ff_pos) + count <= usize::MAX,
        ensures
            r.glyphs@.len() == count,
            forall|i: int|
                0 <= i < count ==> spec_is_filler(
                    #[trigger] r.glyphs@[i],
                    (*old(ff_pos) + i) as usize,
                    width,
                ),
            *final(ff_pos) == *old(ff_pos) + count,
            spec_block_positions_from(r, *old(ff_pos) as nat),
            r.prefix@ == Seq::<char>::empty(),
            r.suffix@ == Seq::<char>::empty(),
            r.color@ == "dddddd"@,
    {
        let ghost start = *ff_pos;
        let end = *ff_pos + count;
        let mut glyphs: Vec<GlyphFull> = Vec::new();
        while *ff_pos < end
            invariant
                start <= *ff_pos <= end,
                end == start + count,
                glyphs@.len() == *ff_pos - start,
                forall|i: int|
                    0 <= i < glyphs@.len() ==> spec_is_filler(
                        #[trigger] glyphs@[i],
                        (start + i) as usize,
                        width,
                    ),
            decreases end - *ff_pos,
        {
            let mut name = String::from_str("empty");
            let digits = dec4(*ff_pos);
            name.append(digits.as_str());
            glyphs.push(
                GlyphFull::new_from_parts(
                    name,
                    width,
                    Rep::empty(),
                    None,
                    Encoding::new(*ff_pos, EncPos::Unencoded),
                    Lookups::NoRules,
                    Cc::NonCombining,
                ),
            );
            *ff_pos += 1;
        }
        Self {
            glyphs,
            prefix: String::new(),
            suffix: String::new(),
            color: String::from_str("dddddd"),
        }
    }

    /// Lays out glyphs that already carry explicit external encoding
    /// positions, then pads the block to a 16-glyph page.
    pub fn new_from_enc_glyphs(
        ff_pos: &mut usize,
        glyphs: Vec<GlyphEnc>,
        lookups: LookupsMode,
        cc_subs: Cc,
        prefix: String,
        suffix: String,
        color: String,
    ) -> (r: Self)
        requires
            *old(ff_pos) + glyphs@.len() + 16 <= usize::MAX,
            lookups matches LookupsMode::WordLigManual(v) ==> v@.len() >= glyphs@.len(),
        ensures
            r.prefix == prefix,
            r.suffix == suffix,
            r.color == color,
            r.glyphs@.len() == glyphs@.len() + spec_pad_count(glyphs@.len()),
            *final(ff_pos) == *old(ff_pos) + r.glyphs@.len(),
            spec_block_positions_from(r, *old(ff_pos) as nat),
            forall|i: int|
                0 <= i < glyphs@.len() ==> {
                    &&& (#[trigger] r.glyphs@[i]).glyph == glyphs@[i].glyph
                    &&& r.glyphs@[i].encoding == (Encoding {
                        ff_pos: (*old(ff_pos) + i) as usize,
                        enc_pos: glyphs@[i].enc,
                    })
                    &&& r.glyphs@[i].lookups == spec_lookups_from_mode(lookups, i)
                    &&& r.glyphs@[i].cc_subs == cc_subs
                },
            forall|i: int|
                glyphs@.len() <= i < r.glyphs@.len() ==> spec_is_filler(
                    #[trigger] r.glyphs@[i],
                    (*old(ff_pos) + i) as usize,
                    0,
                ),
    {
        let ghost orig = glyphs@;
        let ghost start = *ff_pos;
        let mut rest = glyphs;
        let mut out: Vec<GlyphFull> = Vec::new();
        let mut idx: usize = 0;
        while rest.len() > 0
            invariant
                idx == out@.len(),
                rest@ == orig.subrange(idx as int, orig.len() as int),
                idx <= orig.len(),
                *ff_pos == start + idx,
                start + orig.len() + 16 <= usize::MAX,
                lookups matches LookupsMode::WordLigManual(v) ==> v@.len() >= orig.len(),
                forall|i: int|
                    0 <= i < idx ==> {
                        &&& (#[trigger] out@[i]).glyph == orig[i].glyph
                        &&& out@[i].encoding == (Encoding {
                            ff_pos: (start + i) as usize,
                            enc_pos: orig[i].enc,
                        })
                        &&& out@[i].lookups == spec_lookups_from_mode(lookups, i)
                        &&& out@[i].cc_subs == cc_subs
                    },
            decreases rest@.len(),
        {
            let g = rest.remove(0);
            proof {
                assert(g == orig[idx as int]);
                assert(rest@ =~= orig.subrange(idx + 1, orig.len() as int));
            }
            let lk = Lookups::new_from_mode(&lookups, idx);
            out.push(GlyphFull::new_from_enc(g, *ff_pos, lk, cc_subs));
            *ff_pos += 1;
            idx += 1;
        }
        proof {
            assert(idx == orig.len());
        }
        let pad = pad_count(idx);
        let mut padding = Self::new_empty(ff_pos, pad, 0);
        out.append(&mut padding.glyphs);
        Self { glyphs: out, prefix, suffix, color }
    }

    /// Lays out basic glyphs, assigning each the next internal position
    /// and advancing one external encoding position across the run, then
    /// pads the block to a 16-glyph page.
    pub fn new_from_basic_glyphs(
        ff_pos: &mut usize,
        glyphs: Vec<GlyphBasic>,
        lookups: LookupsMode,
        cc_subs: Cc,
        prefix: String,
        suffix: String,
        color: String,
        enc_pos: EncPos,
    ) -> (r: Self)
        requires
            *old(ff_pos) + glyphs@.len() + 16 <= usize::MAX,
            lookups matches LookupsMode::WordLigManual(v) ==> v@.len() >= glyphs@.len(),
            enc_pos matches EncPos::Pos(p) ==> p + glyphs@.len() <= usize::MAX,
        ensures
            r.prefix == prefix,
            r.suffix == suffix,
            r.color == color,
            r.glyphs@.len() == glyphs@.len() + spec_pad_count(glyphs@.len()),
            *final(ff_pos) == *old(ff_pos) + r.glyphs@.len(),
            spec_block_positions_from(r, *old(ff_pos) as nat),
            forall|i: int|
                0 <= i < glyphs@.len() ==> {
                    &&& (#[trigger] r.glyphs@[i]).glyph == glyphs@[i]
                    &&& r.glyphs@[i].encoding == (Encoding {
                        ff_pos: (*old(ff_pos) + i) as usize,
                        enc_pos: spec_enc_pos_plus(enc_pos, i as nat),
                    })
                    &&& r.glyphs@[i].lookups == spec_lookups_from_mode(lookups, i)
                    &&& r.glyphs@[i].cc_subs == cc_subs
                },
            forall|i: int|
                glyphs@.len() <= i < r.glyphs@.len() ==> spec_is_filler(
                    #[trigger] r.glyphs@[i],
                    (*old(ff_pos) + i) as usize,
                    0,
                ),
    {
        let ghost orig = glyphs@;
        let ghost start = *ff_pos;
        let ghost enc0 = enc_pos;
        let mut rest = glyphs;
        let mut enc = enc_pos;
        let mut out: Vec<GlyphFull> = Vec::new();
        let mut idx: usize = 0;
        while rest.len() > 0
            invariant
                idx == out@.len(),
                rest@ == orig.subrange(idx as int, orig.len() as int),
                idx <= orig.len(),
                *ff_pos == start + idx,
                start + orig.len() + 16 <= usize::MAX,
                enc0 matches EncPos::Pos(p) ==> p + orig.len() <= usize::MAX,
                enc == spec_enc_pos_plus(enc0, idx as nat),
                lookups matches LookupsMode::WordLigManual(v) ==> v@.len() >= orig.len(),
                forall|i: int|
                    0 <= i < idx ==> {
                        &&& (#[trigger] out@[i]).glyph == orig[i]
                        &&& out@[i].encoding == (Encoding {
                            ff_pos: (start + i) as usize,
                            enc_pos: spec_enc_pos_plus(enc0, i as nat),
                        })
                        &&& out@[i].lookups == spec_lookups_from_mode(lookups, i)
                        &&& out@[i].cc_subs == cc_subs
                    },
            decreases rest@.len(),
        {
            let g = rest.remove(0);
            proof {
                assert(g == orig[idx as int]);
                assert(rest@ =~= orig.subrange(idx + 1, orig.len() as int));
            }
            let lk = Lookups::new_from_mode(&lookups, idx);
            out.push(GlyphFull::new_from_basic(g, Encoding::new(*ff_pos, enc), lk, cc_subs));
            enc.inc();
            *ff_pos += 1;
            idx += 1;
        }
        proof {
            assert(idx == orig.len());
        }
        let pad = pad_count(idx);
        let mut padding = Self::new_empty(ff_pos, pad, 0);
        out.append(&mut padding.glyphs);
        Self { glyphs: out, prefix, suffix, color }
    }

    /// Lays out glyphs taken from constant descriptors, substituting the
    /// fallback width where a descriptor gives none, then routes through
    /// the basic-glyph layout.
    pub fn new_from_constants(
        ff_pos: &mut usize,
        descs: &Vec<GlyphDescriptor>,
        lookups: LookupsMode,
        cc_subs: Cc,
        prefix: String,
        suffix: String,
        color: String,
        enc_pos: EncPos,
        fallback_width: usize,
    ) -> (r: Self)
        requires
            *old(ff_pos) + descs@.len() + 16 <= usize::MAX,
            lookups matches LookupsMode::WordLigManual(v) ==> v@.len() >= descs@.len(),
            enc_pos matches EncPos::Pos(p) ==> p + descs@.len() <= usize::MAX,
        ensures
            r.prefix == prefix,
            r.suffix == suffix,
            r.color == color,
            r.glyphs@.len() == descs@.len() + spec_pad_count(descs@.len()),
            *final(ff_pos) == *old(ff_pos) + r.glyphs@.len(),
            spec_block_positions_from(r, *old(ff_pos) as nat),
            forall|i: int|
                0 <= i < descs@.len() ==> {
                    &&& (#[trigger] r.glyphs@[i]).glyph.name == descs@[i].name
                    &&& r.glyphs@[i].glyph.width == spec_desc_width(descs@[i], fallback_width)
                    &&& r.glyphs@[i].glyph.rep.spline_set == descs@[i].spline_set
                    &&& r.glyphs@[i].glyph.rep.references@.len() == 0
                    &&& r.glyphs@[i].glyph.anchor == descs@[i].anchor
                    &&& r.glyphs@[i].encoding == (Encoding {
                        ff_pos: (*old(ff_pos) + i) as usize,
                        enc_pos: spec_enc_pos_plus(enc_pos, i as nat),
                    })
                    &&& r.glyphs@[i].lookups == spec_lookups_from_mode(lookups, i)
                    &&& r.glyphs@[i].cc_subs == cc_subs
                },
            forall|i: int|
                descs@.len() <= i < r.glyphs@.len() ==> spec_is_filler(
                    #[trigger] r.glyphs@[i],
                    (*old(ff_pos) + i) as usize,
                    0,
                ),
    {
        let mut basics: Vec<GlyphBasic> = Vec::new();
        let mut i: usize = 0;
        while i < descs.len()
            invariant
                i <= descs@.len(),
                basics@.len() == i,
                forall|j: int|
                    0 <= j < i ==> {
                        &&& (#[trigger] basics@[j]).name == descs@[j].name
                        &&& basics@[j].width == spec_desc_width(descs@[j], fallback_width)
                        &&& basics@[j].rep.spline_set == descs@[j].spline_set
                        &&& basics@[j].rep.references@.len() == 0
                        &&& basics@[j].anchor == descs@[j].anchor
                    },
            decreases descs@.len() - i,
        {
            let d = &descs[i];
            let width = match d.width {
                Some(w) => w,
                None => fallback_width,
            };
            basics.push(
                GlyphBasic::new(d.name.clone(), width, Rep::new(d.spline_set.clone(), Vec::new()), d.anchor),
            );
            i += 1;
        }
        let r = Self::new_from_basic_glyphs(
            ff_pos,
            basics,
            lookups,
            cc_subs,
            prefix,
            suffix,
            color,
            enc_pos,
        );
        r
    }

    /// A new block whose glyphs are all references to this block's glyphs,
    /// at one shared relative transform; names are reused bare or taken
    /// with this block's own decoration, and the width and anchor may be
    /// overridden uniformly.
    pub fn new_from_refs(
        &self,
        ff_pos: &mut usize,
        rel_pos: String,
        lookups: LookupsMode,
        cc_subs: Cc,
        use_full_names: bool,
        prefix: String,
        suffix: String,
        color: String,
        width: Option<usize>,
        anchor: Option<Anchor>,
    ) -> (r: Self)
        requires
            *old(ff_pos) + self.glyphs@.len() + 16 <= usize::MAX,
            lookups matches LookupsMode::WordLigManual(v) ==> v@.len() >= self.glyphs@.len(),
        ensures
            r.prefix == prefix,
            r.suffix == suffix,
            r.color == color,
            r.glyphs@.len() == self.glyphs@.len() + spec_pad_count(self.glyphs@.len()),
            *final(ff_pos) == *old(ff_pos) + r.glyphs@.len(),
            spec_block_positions_from(r, *old(ff_pos) as nat),
            forall|i: int|
                0 <= i < self.glyphs@.len() ==> {
                    &&& (#[trigger] r.glyphs@[i]).glyph.name@ == (if use_full_names {
                        self.prefix@ + self.glyphs@[i].glyph.name@ + self.suffix@
                    } else {
                        self.glyphs@[i].glyph.name@
                    })
                    &&& r.glyphs@[i].glyph.width == (match width {
                        Some(w) => w,
                        None => self.glyphs@[i].glyph.width,
                    })
                    &&& r.glyphs@[i].glyph.rep.spline_set@.len() == 0
                    &&& r.glyphs@[i].glyph.rep.references@.len() == 1
                    &&& r.glyphs@[i].glyph.rep.references@[0].ref_glyph
                        == self.glyphs@[i].encoding
                    &&& r.glyphs@[i].glyph.rep.references@[0].position@ == rel_pos@
                    &&& r.glyphs@[i].glyph.anchor == (match anchor {
                        Some(a) => Some(a),
                        None => self.glyphs@[i].glyph.anchor,
                    })
                    &&& r.glyphs@[i].encoding == (Encoding {
                        ff_pos: (*old(ff_pos) + i) as usize,
                        enc_pos: EncPos::Unencoded,
                    })
                    &&& r.glyphs@[i].lookups == spec_lookups_from_mode(lookups, i)
                    &&& r.glyphs@[i].cc_subs == cc_subs
                },
            forall|i: int|
                self.glyphs@.len() <= i < r.glyphs@.len() ==> spec_is_filler(
                    #[trigger] r.glyphs@[i],
                    (*old(ff_pos) + i) as usize,
                    0,
                ),
    {
        let mut basics: Vec<GlyphBasic> = Vec::new();
        let mut i: usize = 0;
        while i < self.glyphs.len()
            invariant
                i <= self.glyphs@.len(),
                basics@.len() == i,
                forall|j: int|
                    0 <= j < i ==> {
                        &&& (#[trigger] basics@[j]).name@ == (if use_full_names {
                            self.prefix@ + self.glyphs@[j].glyph.name@ + self.suffix@
                        } else {
                            self.glyphs@[j].glyph.name@
                        })
                        &&& basics@[j].width == (match width {
                            Some(w) => w,
                            None => self.glyphs@[j].glyph.width,
                        })
                        &&& basics@[j].rep.spline_set@.len() == 0
                        &&& basics@[j].rep.references@.len() == 1
                        &&& basics@[j].rep.references@[0].ref_glyph == self.glyphs@[j].encoding
                        &&& basics@[j].rep.references@[0].position@ == rel_pos@
                        &&& basics@[j].anchor == (match anchor {
                            Some(a) => Some(a),
                            None => self.glyphs@[j].glyph.anchor,
                        })
                    },
            decreases self.glyphs@.len() - i,
        {
            let src = &self.glyphs[i];
            let mut refs: Vec<Ref> = Vec::new();
            refs.push(Ref::new(src.encoding, rel_pos.clone()));
            let name = if use_full_names {
                let mut n = String::new();
                n.append(self.prefix.as_str());
                n.append(src.glyph.name.as_str());
                n.append(self.suffix.as_str());
                n
            } else {
                src.glyph.name.clone()
            };
            let w = match width {
                Some(w) => w,
                None => src.glyph.width,
            };
            let a = match anchor {
                Some(a) => Some(a),
                None => src.glyph.anchor,
            };
            basics.push(GlyphBasic::new(name, w, Rep::new(String::new(), refs), a));
            i += 1;
        }
        let r = Self::new_from_basic_glyphs(
            ff_pos,
            basics,
            lookups,
            cc_subs,
            prefix,
            suffix,
            color,
            EncPos::Unencoded,
        );
        r
    }

    /// Renders the whole block.
    pub fn gen(&self, variation: NasinNanpaVariation) -> (r: String)
        requires
            spec_block_renderable(*self, variation),
        ensures
            r@ == spec_block_gen(*self, variation),
    {
        let mut s = String::new();
        let mut i: usize = 0;
        while i < self.glyphs.len()
            invariant
                i <= self.glyphs@.len(),
                spec_block_renderable(*self, variation),
                s@ == spec_glyphs_gen(
                    self.glyphs@.subrange(0, i as int),
                    self.prefix@,
                    self.suffix@,
                    self.color@,
                    variation,
                ),
            decreases self.glyphs@.len() - i,
        {
            let piece = self.glyphs[i].gen(
                self.prefix.as_str(),
                self.suffix.as_str(),
                self.color.as_str(),
                variation,
            );
            s.append(piece.as_str());
            i += 1;
            proof {
                let pre = self.glyphs@.subrange(0, i as int);
                assert(pre.drop_last() =~= self.glyphs@.subrange(0, i - 1));
                assert(s@ == spec_glyphs_gen(
                    pre,
                    self.prefix@,
                    self.suffix@,
                    self.color@,
                    variation,
                ));
            }
        }
        proof {
            assert(self.glyphs@.subrange(0, self.glyphs@.len() as int) =~= self.glyphs@);
        }
        s
    }

    /// Whether rendering is defined for every glyph of the block; false
    /// marks a descriptor-table error.
    pub fn renderable(&self, variation: NasinNanpaVariation) -> (b: bool)
        ensures
            b == spec_block_renderable(*self, variation),
    {
        let mut i: usize = 0;
        while i < self.glyphs.len()
            invariant
                i <= self.glyphs@.len(),
                forall|j: int|
                    0 <= j < i ==> spec_glyph_renderable(
                        #[trigger] self.glyphs@[j],
                        self.prefix@,
                        self.suffix@,
                        variation,
                    ),
            decreases self.glyphs@.len() - i,
        {
            if !self.glyphs[i].renderable(self.prefix.as_str(), self.suffix.as_str(), variation) {
                return false;
            }
            i += 1;
        }
        true
    }
}

} // verus!
