use font_forge_tool::block::GlyphBlock;
use font_forge_tool::classes::{chain_subs, context_subs};
use font_forge_tool::encoding::EncPos;
use font_forge_tool::glyph::GlyphBasic;
use font_forge_tool::glyph_full::Cc;
use font_forge_tool::lookups::LookupsMode;
use font_forge_tool::rep::Rep;

fn named_block(names: &[&str], suffix: &str, ff: &mut usize) -> GlyphBlock {
    let glyphs: Vec<GlyphBasic> = names
        .iter()
        .map(|n| GlyphBasic::new(n.to_string(), 1000, Rep::new(String::new(), vec![]), None))
        .collect();
    GlyphBlock::new_from_basic_glyphs(
        ff,
        glyphs,
        LookupsMode::NoRules,
        Cc::NonCombining,
        String::new(),
        suffix.to_string(),
        "ffff".to_string(),
        EncPos::Unencoded,
    )
}

#[test]
fn context_subs_builds_scale_and_stack_classes() {
    let mut ff: usize = 0;
    let outer = named_block(&["kala"], "Tok_joinScaleTok", &mut ff);
    let ext_outer = named_block(&[], "Tok_joinScaleTok", &mut ff);
    let alt_outer = named_block(&[], "_joinScaleTok", &mut ff);
    let lower = named_block(&["kala", "suno"], "Tok_joinStackTok", &mut ff);
    let ext_lower = named_block(&[], "Tok_joinStackTok", &mut ff);
    let alt_lower = named_block(&[], "_joinStackTok", &mut ff);
    let out = context_subs(&outer, &ext_outer, &alt_outer, &lower, &ext_lower, &alt_lower);
    let scale_body = "kalaTok  ";
    let stack_body = "sunoTok  ";
    let zwj = "Class: 3 ZWJ";
    let scale = format!("Class: {} {}", scale_body.len(), scale_body);
    let stack = format!("Class: {} {}", stack_body.len(), stack_body);
    let mut expected = String::from("ContextSub2: class \"'calt' CHANGE ZWJ\" 4 4 4 2\n");
    for c in ["", "B", "F"] {
        expected.push_str(&format!("  {c}{zwj}\n  {c}{scale}\n  {c}{stack}\n"));
    }
    assert_eq!(out, expected);
}

#[test]
fn scale_member_never_enters_stack_class() {
    let mut ff: usize = 0;
    let outer = named_block(&["akesi", "kala"], "Tok_joinScaleTok", &mut ff);
    let ext_outer = named_block(&[], "Tok_joinScaleTok", &mut ff);
    let alt_outer = named_block(&["waso_arrow"], "_joinScaleTok", &mut ff);
    let lower = named_block(&["kala", "suno", "akesi"], "Tok_joinStackTok", &mut ff);
    let ext_lower = named_block(&["kala"], "Tok_joinStackTok", &mut ff);
    let alt_lower = named_block(&[], "_joinStackTok", &mut ff);
    let out = context_subs(&outer, &ext_outer, &alt_outer, &lower, &ext_lower, &alt_lower);
    let lines: Vec<&str> = out.lines().collect();
    // lines[1..4] are the unprefixed zwj / scale / stack class lines
    let stack_line = lines[3];
    assert!(!stack_line.contains("kala"));
    assert!(!stack_line.contains("akesi"));
    assert!(stack_line.contains("sunoTok"));
}

#[test]
fn stack_class_drops_arrow_variants() {
    let mut ff: usize = 0;
    let outer = named_block(&[], "Tok_joinScaleTok", &mut ff);
    let ext_outer = named_block(&[], "Tok_joinScaleTok", &mut ff);
    let alt_outer = named_block(&[], "_joinScaleTok", &mut ff);
    let lower = named_block(&["ni_arrowW", "suno"], "Tok_joinStackTok", &mut ff);
    let ext_lower = named_block(&[], "Tok_joinStackTok", &mut ff);
    let alt_lower = named_block(&[], "_joinStackTok", &mut ff);
    let out = context_subs(&outer, &ext_outer, &alt_outer, &lower, &ext_lower, &alt_lower);
    let lines: Vec<&str> = out.lines().collect();
    let stack_line = lines[3];
    assert!(!stack_line.contains("arrow"));
    assert!(stack_line.contains("sunoTok"));
}

#[test]
fn chain_subs_builds_base_cart_cont_classes() {
    let mut ff: usize = 0;
    let ctrl_names: Vec<String> = (0..14)
        .map(|k| format!("c{}", k))
        .chain(["xHalf".to_string(), "yTick".to_string()])
        .collect();
    let ctrl_refs: Vec<&str> = ctrl_names.iter().map(|s| s.as_str()).collect();
    let ctrl = named_block(&ctrl_refs, "", &mut ff);
    let long_names: Vec<String> = (0..15)
        .map(|k| format!("s{}", k))
        .chain(["laTok".to_string()])
        .collect();
    let long_refs: Vec<&str> = long_names.iter().map(|s| s.as_str()).collect();
    let start_long = named_block(&long_refs, "_startLongGlyphTok", &mut ff);
    let main_names: Vec<String> = (0..16).map(|k| format!("g{}", k)).collect();
    let main_refs: Vec<&str> = main_names.iter().map(|s| s.as_str()).collect();
    let main = named_block(&main_refs, "Tok", &mut ff);
    let main_blocks = vec![main];
    let out = chain_subs(&ctrl, &start_long, &main_blocks);

    let base_body = format!(
        "{} joinStackTok joinScaleTok {}",
        (0..14).map(|k| format!("c{}", k)).collect::<Vec<_>>().join(" "),
        (0..16).map(|k| format!("g{}Tok", k)).collect::<Vec<_>>().join(" "),
    );
    let cart_body = format!(
        "combCartExtHalfTok combCartExtNoneTok {} startCartTok combCartExtTok startCartAltTok",
        (1..=8).map(|x| format!("combCartExt{}TickTok", x)).collect::<Vec<_>>().join(" "),
    );
    let cont_body = format!(
        "combLongGlyphExtHalfTok startLongPiTok combLongPiExtTok startLongGlyphTok combLongGlyphExtTok startRevLongGlyphTok {}",
        (0..15).map(|k| format!("s{}_startLongGlyphTok", k)).collect::<Vec<_>>().join(" "),
    );
    let base = format!("Class: {} {}", base_body.len(), base_body);
    let cart = format!("Class: {} {}", cart_body.len(), cart_body);
    let cont = format!("Class: {} {}", cont_body.len(), cont_body);
    let mut expected = String::from("ChainSub2: class \"'calt' CART AND CONT\" 4 4 4 2\n");
    for c in ["", "B", "F"] {
        expected.push_str(&format!("  {c}{base}\n  {c}{cart}\n  {c}{cont}\n"));
    }
    assert_eq!(out, expected);
}
