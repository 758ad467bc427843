use font_forge_tool::lookups::{Lookups, LookupsMode, NasinNanpaVariation};

#[test]
fn letters_ligature_splits_name_into_letters() {
    let lk = Lookups::WordLigFromLetters;
    let out = lk.gen("pona", "ponaTok", NasinNanpaVariation::Main);
    assert_eq!(
        out,
        "Ligature2: \"'liga' WORD PLUS SPACE\" p o n a space\nLigature2: \"'liga' WORD\" p o n a\n"
    );
}

#[test]
fn letters_ligature_ale_gets_ali_extras() {
    let lk = Lookups::WordLigFromLetters;
    let out = lk.gen("ale", "aleTok", NasinNanpaVariation::Main);
    assert_eq!(
        out,
        "Ligature2: \"'liga' WORD PLUS SPACE\" a l e space\nLigature2: \"'liga' WORD\" a l e\nLigature2: \"'liga' WORD PLUS SPACE\" a l i space\nLigature2: \"'liga' WORD\" a l i\n"
    );
}

#[test]
fn manual_ligature_default_two_forms() {
    let lk = Lookups::WordLigManual("period".to_string());
    let out = lk.gen("ano", "anoTok", NasinNanpaVariation::Main);
    assert_eq!(
        out,
        "Ligature2: \"'liga' WORD PLUS SPACE\" period space\nLigature2: \"'liga' WORD\" period\n"
    );
}

#[test]
fn manual_ligature_ucsur_emits_nothing_by_default() {
    let lk = Lookups::WordLigManual("period".to_string());
    let out = lk.gen("ano", "anoTok", NasinNanpaVariation::Ucsur);
    assert_eq!(out, "");
}

#[test]
fn manual_middle_dot_suppresses_latin_rule() {
    let lk = Lookups::WordLigManual("middleDotTok middleDotTok".to_string());
    let out = lk.gen("colon", "colonTok", NasinNanpaVariation::Main);
    assert_eq!(
        out,
        "Ligature2: \"'liga' VAR\" middleDotTok middleDotTok\n"
    );
}

#[test]
fn manual_cart_alt_start_and_end() {
    let start = Lookups::WordLigManual("startCartAlt".to_string());
    let out = start.gen("startCartAlt", "startCartAltTok", NasinNanpaVariation::Ucsur);
    assert_eq!(out, "Ligature2: \"'liga' VAR\" startCartTok VAR01\n");
    let end = Lookups::WordLigManual("endCartAlt".to_string());
    let out = end.gen("endCartAlt", "endCartAltTok", NasinNanpaVariation::Main);
    assert_eq!(
        out,
        "Ligature2: \"'liga' VAR\" endCartTok VAR01\nLigature2: \"'liga' VAR PLUS SPACE\" endCartTok VAR01 space\nLigature2: \"'liga' VAR PLUS SPACE\" endCartTok one space\nLigature2: \"'liga' VAR\" endCartTok VAR01\nLigature2: \"'liga' VAR\" endCartTok one\n"
    );
}

#[test]
fn manual_zwj_emits_style_substitutions() {
    let lk = Lookups::WordLigManual("ampersand".to_string());
    let out = lk.gen("ZWJ", "ZWJ", NasinNanpaVariation::Ucsur);
    assert_eq!(
        out,
        "Substitution2: \"'ss02' BECOME STACK\" joinStackTok\nSubstitution2: \"'ss01' BECOME SCALE\" joinScaleTok\n"
    );
}

#[test]
fn manual_itan_compound_ligature() {
    let lk = Lookups::WordLigManual("i t a n".to_string());
    let out = lk.gen("itan", "itanTok", NasinNanpaVariation::Ucsur);
    assert_eq!(
        out,
        "Ligature2: \"'liga' VAR\" ijoTok ZWJ tanTok ZWJ anpaTok ZWJ nanpaTok\n"
    );
}

#[test]
fn manual_lepeka_compound_ligature() {
    let lk = Lookups::WordLigManual("l e p e k a".to_string());
    let out = lk.gen("lepeka", "lepekaTok", NasinNanpaVariation::Ucsur);
    assert_eq!(
        out,
        "Ligature2: \"'liga' VAR\" meliTok ZWJ kuleTok ZWJ kuleTok\n"
    );
}

#[test]
fn manual_double_space_rule() {
    let lk = Lookups::WordLigManual("space space".to_string());
    let out = lk.gen("ideographicSpace", "ideographicSpaceTok", NasinNanpaVariation::Main);
    assert_eq!(
        out,
        "Ligature2: \"'liga' SPACE\" space space\nLigature2: \"'liga' SPACE\" z z space\nLigature2: \"'liga' SPACE\" z z\n"
    );
}

#[test]
fn manual_bar_rule() {
    let lk = Lookups::WordLigManual("bar".to_string());
    let out = lk.gen("ZWNJ", "ZWNJ", NasinNanpaVariation::Main);
    assert_eq!(
        out,
        "Ligature2: \"'liga' WORD PLUS SPACE\" bar space\nLigature2: \"'liga' WORD\" bar\n"
    );
}

#[test]
fn manual_arrow_single_direction() {
    let lk = Lookups::WordLigManual("arrow".to_string());
    let out = lk.gen("arrowW", "arrowW", NasinNanpaVariation::Main);
    assert_eq!(
        out,
        "Ligature2: \"'liga' WORD PLUS SPACE\" less space\nLigature2: \"'liga' WORD\" less\n"
    );
}

#[test]
fn manual_arrow_two_directions() {
    let lk = Lookups::WordLigManual("arrow".to_string());
    let out = lk.gen("arrowNW", "arrowNW", NasinNanpaVariation::Main);
    assert_eq!(
        out,
        "Ligature2: \"'liga' WORD PLUS SPACE\" asciicircum less space\nLigature2: \"'liga' WORD PLUS SPACE\" less asciicircum space\nLigature2: \"'liga' WORD\" asciicircum less\nLigature2: \"'liga' WORD\" less asciicircum\n"
    );
}

#[test]
fn manual_arrow_ucsur_emits_nothing() {
    let lk = Lookups::WordLigManual("arrow".to_string());
    let out = lk.gen("arrowNW", "arrowNW", NasinNanpaVariation::Ucsur);
    assert_eq!(out, "");
}

#[test]
fn start_long_glyph_splits_on_last_underscore() {
    let lk = Lookups::StartLongGlyph;
    let out = lk.gen("pi", "pi_startLongGlyphTok", NasinNanpaVariation::Main);
    assert_eq!(
        out,
        "Ligature2: \"'liga' START CONTAINER\" pi startLongGlyphTok\n"
    );
}

#[test]
fn end_long_glyph_uses_reverse_joiner() {
    let lk = Lookups::EndLongGlyph;
    let out = lk.gen("la", "la_startLongGlyphTok", NasinNanpaVariation::Main);
    assert_eq!(
        out,
        "Ligature2: \"'liga' START CONTAINER\" endRevLongGlyphTok la\n"
    );
}

#[test]
fn combo_first_emits_respawn_joiner() {
    let lk = Lookups::ComboFirst;
    let out = lk.gen("kala", "kalaTok_joinScaleTok", NasinNanpaVariation::Main);
    assert_eq!(
        out,
        "Ligature2: \"'liga' GLYPH THEN JOINER\" kalaTok joinScaleTok\nMultipleSubs2: \"'ccmp' RESPAWN JOINER\" kalaTok_joinScaleTok joinScaleTok\n"
    );
}

#[test]
fn combo_last_emits_cleanup_rules() {
    let lk = Lookups::ComboLast;
    let out = lk.gen("kala", "joinScaleTok_kalaTok", NasinNanpaVariation::Main);
    assert_eq!(
        out,
        "Ligature2: \"'liga' JOINER THEN GLYPH\" joinScaleTok kalaTok\nLigature2: \"'liga' CC CLEANUP\" combCartExtHalfTok joinScaleTok_kalaTok\nLigature2: \"'liga' CC CLEANUP\" combLongGlyphExtHalfTok joinScaleTok_kalaTok\nLigature2: \"'liga' CC CLEANUP\" combCartExtTok joinScaleTok_kalaTok\nLigature2: \"'liga' CC CLEANUP\" combLongGlyphExtTok joinScaleTok_kalaTok\n"
    );
}

#[test]
fn alt_selector_var03_main_resolves_ordinal_three() {
    let lk = Lookups::Alt;
    let out = lk.gen("jaki", "jakiTok_VAR03", NasinNanpaVariation::Main);
    assert!(out.contains("Ligature2: \"'liga' VAR\" jakiTok VAR03\n"));
    assert!(out.contains("Ligature2: \"'liga' VAR PLUS SPACE\" jakiTok three space\nLigature2: \"'liga' VAR\" jakiTok three\n"));
    assert!(out.contains("Ligature2: \"'liga' VAR\" jakiTok_VAR01 VAR03\n"));
    assert!(out.contains("Ligature2: \"'liga' VAR PLUS SPACE\" jakiTok_VAR08 three space\n"));
}

#[test]
fn alt_selector_var03_ucsur_omits_ordinal_word() {
    let lk = Lookups::Alt;
    let out = lk.gen("jaki", "jakiTok_VAR03", NasinNanpaVariation::Ucsur);
    assert!(!out.contains("three"));
    assert_eq!(
        out,
        "Ligature2: \"'liga' VAR\" jakiTok VAR03\nLigature2: \"'liga' VAR\" jakiTok_VAR01 VAR03\nLigature2: \"'liga' VAR\" jakiTok_VAR02 VAR03\nLigature2: \"'liga' VAR\" jakiTok_VAR03 VAR03\nLigature2: \"'liga' VAR\" jakiTok_VAR04 VAR03\nLigature2: \"'liga' VAR\" jakiTok_VAR05 VAR03\nLigature2: \"'liga' VAR\" jakiTok_VAR06 VAR03\nLigature2: \"'liga' VAR\" jakiTok_VAR07 VAR03\nLigature2: \"'liga' VAR\" jakiTok_VAR08 VAR03\n"
    );
}

#[test]
fn alt_selector_a_tok_var01_extras() {
    let lk = Lookups::Alt;
    let out = lk.gen("a", "aTok_VAR01", NasinNanpaVariation::Ucsur);
    assert_eq!(
        out,
        "Ligature2: \"'liga' VAR\" semeTok ZWJ aTok\nLigature2: \"'liga' VAR\" aTok ZWJ semeTok\nLigature2: \"'liga' VAR\" aTok VAR01\n"
    );
}

#[test]
fn alt_selector_ni_arrow_gets_zwj_rule() {
    let lk = Lookups::Alt;
    let out = lk.gen("ni", "niTok_arrowW", NasinNanpaVariation::Ucsur);
    assert_eq!(
        out,
        "Ligature2: \"'liga' VAR\" niTok arrowW\nLigature2: \"'liga' VAR\" niTok ZWJ arrowW\n"
    );
}

#[test]
fn rand_section_on_bare_jaki_tok() {
    let lk = Lookups::WordLigFromLetters;
    let out = lk.gen("jaki", "jakiTok", NasinNanpaVariation::Ucsur);
    assert_eq!(
        out,
        "Ligature2: \"'liga' WORD PLUS SPACE\" j a k i space\nLigature2: \"'liga' WORD\" j a k i\nLigature2: \"'liga' VAR\" jakiTok_VAR01 VAR09\nLigature2: \"'liga' VAR\" jakiTok_VAR02 VAR09\nLigature2: \"'liga' VAR\" jakiTok_VAR03 VAR09\nLigature2: \"'liga' VAR\" jakiTok_VAR04 VAR09\nLigature2: \"'liga' VAR\" jakiTok_VAR05 VAR09\nLigature2: \"'liga' VAR\" jakiTok_VAR06 VAR09\nLigature2: \"'liga' VAR\" jakiTok_VAR07 VAR09\nLigature2: \"'liga' VAR\" jakiTok_VAR08 VAR09\nAlternateSubs2: \"'rand' RAND VARIATIONS\" jakiTok_VAR01 jakiTok_VAR02 jakiTok_VAR03 jakiTok_VAR04 jakiTok_VAR05 jakiTok_VAR06 jakiTok_VAR07 jakiTok_VAR08\n"
    );
}

#[test]
fn rand_section_on_bare_ko_tok_main_uses_nine() {
    let lk = Lookups::NoRules;
    let out = lk.gen("ko", "koTok", NasinNanpaVariation::Main);
    assert!(out.starts_with("Ligature2: \"'liga' VAR PLUS SPACE\" koTok_VAR01 VAR09 space\nLigature2: \"'liga' VAR PLUS SPACE\" koTok_VAR01 nine space\nLigature2: \"'liga' VAR\" koTok_VAR01 VAR09\nLigature2: \"'liga' VAR\" koTok_VAR01 nine\n"));
    assert!(out.ends_with("AlternateSubs2: \"'rand' RAND VARIATIONS\" koTok_VAR01 koTok_VAR02 koTok_VAR03 koTok_VAR04 koTok_VAR05 koTok_VAR06 koTok_VAR07 koTok_VAR08\n"));
}

#[test]
fn no_rules_emits_empty_string() {
    let lk = Lookups::NoRules;
    assert_eq!(lk.gen("x", "xTok", NasinNanpaVariation::Main), "");
}

#[test]
fn wf_check_rejects_malformed_names() {
    // An alternate-selector name needs an underscore and a known selector.
    let alt = Lookups::Alt;
    assert!(!alt.wf_check("a", "aTok", NasinNanpaVariation::Main));
    assert!(!alt.wf_check("a", "aTok_VAR99", NasinNanpaVariation::Main));
    assert!(alt.wf_check("a", "aTok_VAR01", NasinNanpaVariation::Main));
    // A long-glyph or combo name needs an underscore.
    assert!(!Lookups::StartLongGlyph.wf_check("pi", "piTok", NasinNanpaVariation::Main));
    assert!(Lookups::StartLongGlyph.wf_check("pi", "pi_startLongGlyphTok", NasinNanpaVariation::Main));
    assert!(!Lookups::ComboFirst.wf_check("kala", "kalaTok", NasinNanpaVariation::Main));
    assert!(!Lookups::ComboLast.wf_check("kala", "kalaTok", NasinNanpaVariation::Main));
    // An arrow manual string needs a direction character at position five
    // in the Main variant only.
    let arrow = Lookups::WordLigManual("arrow".to_string());
    assert!(!arrow.wf_check("arroq", "arroq", NasinNanpaVariation::Main));
    assert!(!arrow.wf_check("arrowQ", "arrowQ", NasinNanpaVariation::Main));
    assert!(arrow.wf_check("arrowQ", "arrowQ", NasinNanpaVariation::Ucsur));
    assert!(arrow.wf_check("arrowSE", "arrowSE", NasinNanpaVariation::Main));
}

#[test]
fn mode_resolution_demotes_empty_manual_string() {
    let mode = LookupsMode::WordLigManual(vec!["x".to_string(), String::new()]);
    let l0 = Lookups::new_from_mode(&mode, 0);
    let l1 = Lookups::new_from_mode(&mode, 1);
    assert_eq!(l0.gen("a", "aTok", NasinNanpaVariation::Ucsur), "");
    assert_eq!(l1.gen("b", "bTok", NasinNanpaVariation::Ucsur), "");
    assert_eq!(
        l0.gen("a", "aTok", NasinNanpaVariation::Main),
        "Ligature2: \"'liga' WORD PLUS SPACE\" x space\nLigature2: \"'liga' WORD\" x\n"
    );
    assert_eq!(l1.gen("b", "bTok", NasinNanpaVariation::Main), "");
}
