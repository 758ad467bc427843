use font_forge_tool::block::GlyphBlock;
use font_forge_tool::encoding::EncPos;
use font_forge_tool::glyph::{GlyphBasic, GlyphDescriptor, GlyphEnc};
use font_forge_tool::glyph_full::Cc;
use font_forge_tool::lookups::{Lookups, LookupsMode, NasinNanpaVariation};
use font_forge_tool::rep::Rep;

fn basic(name: &str) -> GlyphBasic {
    GlyphBasic::new(name.to_string(), 1000, Rep::new(String::new(), vec![]), None)
}

fn block_of(n: usize, ff_pos: &mut usize) -> GlyphBlock {
    let mut glyphs = vec![];
    for k in 0..n {
        glyphs.push(basic(&format!("g{}", k)));
    }
    GlyphBlock::new_from_basic_glyphs(
        ff_pos,
        glyphs,
        LookupsMode::NoRules,
        Cc::NonCombining,
        String::new(),
        "Tok".to_string(),
        "ffff".to_string(),
        EncPos::Unencoded,
    )
}

#[test]
fn block_length_is_always_a_multiple_of_16() {
    for &n in &[0usize, 1, 15, 16, 17, 31, 32] {
        let mut ff: usize = 0;
        let b = block_of(n, &mut ff);
        assert_eq!(b.glyphs.len() % 16, 0, "n = {}", n);
        let filler = b.glyphs.len() - n;
        assert_eq!(filler, 15 - ((n + 15) % 16), "n = {}", n);
        assert_eq!(ff, b.glyphs.len());
    }
}

#[test]
fn internal_positions_are_contiguous_across_blocks() {
    let mut ff: usize = 0;
    let b1 = block_of(3, &mut ff);
    let b2 = block_of(5, &mut ff);
    let mut expected: usize = 0;
    for g in b1.glyphs.iter().chain(b2.glyphs.iter()) {
        assert_eq!(g.encoding.ff_pos, expected);
        expected += 1;
    }
    assert_eq!(ff, expected);
}

#[test]
fn encoding_positions_advance_across_a_block() {
    let mut ff: usize = 0;
    let glyphs = vec![basic("a"), basic("b"), basic("c")];
    let b = GlyphBlock::new_from_basic_glyphs(
        &mut ff,
        glyphs,
        LookupsMode::NoRules,
        Cc::NonCombining,
        String::new(),
        "Tok".to_string(),
        "ffff".to_string(),
        EncPos::Pos(0x100),
    );
    assert_eq!(b.glyphs[0].encoding.gen(), "Encoding: 0 256 0");
    assert_eq!(b.glyphs[1].encoding.gen(), "Encoding: 1 257 1");
    assert_eq!(b.glyphs[2].encoding.gen(), "Encoding: 2 258 2");
    assert_eq!(b.glyphs[3].encoding.gen(), "Encoding: 3 -1 3");
}

#[test]
fn enc_glyph_block_keeps_explicit_positions() {
    let mut ff: usize = 10;
    let glyphs = vec![
        GlyphEnc::new_from_parts(EncPos::Pos(0x200C), "ZWNJ".to_string(), 0, Rep::empty()),
        GlyphEnc::new_from_parts(EncPos::Unencoded, "combCartExtNoneTok".to_string(), 0, Rep::empty()),
    ];
    let b = GlyphBlock::new_from_enc_glyphs(
        &mut ff,
        glyphs,
        LookupsMode::NoRules,
        Cc::Participant,
        String::new(),
        String::new(),
        "fa6791".to_string(),
    );
    assert_eq!(b.glyphs[0].encoding.gen(), "Encoding: 10 8204 10");
    assert_eq!(b.glyphs[1].encoding.gen(), "Encoding: 11 -1 11");
    assert_eq!(b.glyphs.len(), 16);
    assert_eq!(ff, 26);
}

#[test]
fn new_empty_names_are_zero_padded_positions() {
    let mut ff: usize = 7;
    let b = GlyphBlock::new_empty(&mut ff, 2, 0);
    assert_eq!(b.glyphs[0].glyph.name, "empty0007");
    assert_eq!(b.glyphs[1].glyph.name, "empty0008");
    let mut ff2: usize = 12345;
    let b2 = GlyphBlock::new_empty(&mut ff2, 1, 0);
    assert_eq!(b2.glyphs[0].glyph.name, "empty12345");
}

#[test]
fn refs_block_references_source_encodings() {
    let mut ff: usize = 0;
    let src = block_of(2, &mut ff);
    let b = src.new_from_refs(
        &mut ff,
        "S 1 0 0 1 -1000 500 2".to_string(),
        LookupsMode::NoRules,
        Cc::NonCombining,
        false,
        "joinStackTok_".to_string(),
        "Tok".to_string(),
        "80ff80".to_string(),
        Some(0),
        None,
    );
    assert_eq!(b.glyphs.len(), src.glyphs.len());
    assert_eq!(b.glyphs[0].glyph.name, "g0");
    assert_eq!(b.glyphs[0].glyph.width, 0);
    assert_eq!(
        b.glyphs[0].glyph.rep.gen(),
        "Fore\nRefer: 0 -1 S 1 0 0 1 -1000 500 2\n"
    );
    assert_eq!(b.glyphs[0].encoding.gen(), "Encoding: 16 -1 16");
}

#[test]
fn two_entry_descriptor_block_end_to_end() {
    let mut ff: usize = 0;
    let descs = vec![
        GlyphDescriptor::new("a".to_string(), "...".to_string()),
        GlyphDescriptor::new("b".to_string(), "...".to_string()),
    ];
    let b = GlyphBlock::new_from_constants(
        &mut ff,
        &descs,
        LookupsMode::WordLigManual(vec!["x".to_string(), String::new()]),
        Cc::NonCombining,
        String::new(),
        String::new(),
        "cccfff".to_string(),
        EncPos::Unencoded,
        1000,
    );
    assert_eq!(b.glyphs.len(), 16);
    let a_text = b.glyphs[0].gen("", "", "cccfff", NasinNanpaVariation::Main);
    assert!(a_text.contains("Ligature2: \"'liga' WORD PLUS SPACE\" x space\nLigature2: \"'liga' WORD\" x\n"));
    let b_text = b.glyphs[1].gen("", "", "cccfff", NasinNanpaVariation::Main);
    assert!(!b_text.contains("Ligature2"));
    for (k, g) in b.glyphs.iter().enumerate().skip(2) {
        assert_eq!(g.glyph.width, 0);
        assert_eq!(g.glyph.rep.gen(), "");
        assert!(matches!(g.encoding.enc_pos, EncPos::Unencoded));
        assert!(matches!(g.lookups, Lookups::NoRules));
        assert_eq!(g.glyph.name, format!("empty{:04}", k));
    }
}

#[test]
fn block_renderable_flags_convention_violations() {
    let mut ff: usize = 0;
    let good = vec![basic("kala")];
    let b = GlyphBlock::new_from_basic_glyphs(
        &mut ff,
        good,
        LookupsMode::ComboFirst,
        Cc::Full,
        String::new(),
        "Tok_joinScaleTok".to_string(),
        "ffff".to_string(),
        EncPos::Unencoded,
    );
    assert!(b.renderable(NasinNanpaVariation::Main));
    let bad = vec![basic("kala")];
    let b2 = GlyphBlock::new_from_basic_glyphs(
        &mut ff,
        bad,
        LookupsMode::ComboFirst,
        Cc::Full,
        String::new(),
        "Tok".to_string(),
        "ffff".to_string(),
        EncPos::Unencoded,
    );
    assert!(!b2.renderable(NasinNanpaVariation::Main));
}

#[test]
fn filler_glyph_renders_short_record() {
    let mut ff: usize = 3;
    let b = GlyphBlock::new_empty(&mut ff, 1, 0);
    let text = b.glyphs[0].gen("", "", "dddddd", NasinNanpaVariation::Main);
    assert_eq!(
        text,
        "\nStartChar: empty0003\nEncoding: 3 -1 3\nWidth: 0\nLayerCount: 2\nColour: dddddd\nEndChar\n"
    );
}

#[test]
fn full_glyph_record_layout() {
    let mut ff: usize = 0;
    let descs = vec![GlyphDescriptor::new_with_width("kala".to_string(), 800, "\n1 2 m 0".to_string())];
    let b = GlyphBlock::new_from_constants(
        &mut ff,
        &descs,
        LookupsMode::NoRules,
        Cc::Full,
        String::new(),
        "Tok".to_string(),
        "bf80ff".to_string(),
        EncPos::Pos(0xF1900),
        1000,
    );
    let text = b.glyphs[0].gen("", "Tok", "bf80ff", NasinNanpaVariation::Main);
    assert_eq!(
        text,
        "\nStartChar: kalaTok\nEncoding: 0 989440 0\nWidth: 800\nLayerCount: 2\nFore\nSplineSet\n1 2 m 0\nEndSplineSet\nMultipleSubs2: \"'cc01' CART\" kalaTok combCartExtTok\nMultipleSubs2: \"'cc02' CONT\" kalaTok combLongGlyphExtTok\nColour: bf80ff\nEndChar\n"
    );
}

#[test]
fn flags_line_for_marked_names() {
    let mut ff: usize = 0;
    let glyphs = vec![GlyphEnc::new_from_parts(EncPos::Pos(0x200D), "ZWJ".to_string(), 0, Rep::empty())];
    let b = GlyphBlock::new_from_enc_glyphs(
        &mut ff,
        glyphs,
        LookupsMode::NoRules,
        Cc::NonCombining,
        String::new(),
        String::new(),
        "fa6791".to_string(),
    );
    let text = b.glyphs[0].gen("", "", "fa6791", NasinNanpaVariation::Ucsur);
    assert_eq!(
        text,
        "\nStartChar: ZWJ\nEncoding: 0 8205 0\nWidth: 0\nFlags: W\nLayerCount: 2\nColour: fa6791\nEndChar\n"
    );
}
