//! The rule-synthesis engine: from a glyph's resolved lookup kind, its bare
//! name, and its decorated full name, derives the literal ligature /
//! substitution / alternate-selection rule text appended after the glyph's
//! drawable content.

use crate::strutil::{
    digit_str, first_ix, join_strings, lemma_first_ix, spec_after_first, spec_after_last,
    spec_before_first, spec_before_last, spec_contains, spec_digit, spec_join, spec_starts_with,
    split_first, split_last, str_contains, str_eq, str_has_char, str_starts_with, substring,
};
use vstd::prelude::*;
use vstd::string::StrSliceExecFns;
use vstd::string::StringExecFns;

verus! {

/// Which of the two generated font variants is being produced: the Main
/// variant adds rules tailored to a Latin keyboard layout; the Ucsur
/// variant, encoded in a Unicode private-use area, omits them.
#[derive(PartialEq, Eq, Structural, Clone, Copy, Debug)]
pub enum NasinNanpaVariation {
    Main,
    Ucsur,
}

/// A per-block lookup policy, resolved once per glyph at block-construction
/// time.
pub enum LookupsMode {
    WordLigFromLetters,
    WordLigManual(Vec<String>),
    StartLongGlyph,
    Alt,
    ComboFirst,
    ComboLast,
    NoRules,
}

/// A glyph's resolved lookup kind.  The manual variant carries the one
/// resolved string; the end-of-long-glyph variant is reachable only by an
/// explicit post-layout patch, never from a `LookupsMode`.
pub enum Lookups {
    WordLigFromLetters,
    WordLigManual(String),
    StartLongGlyph,
    EndLongGlyph,
    Alt,
    ComboFirst,
    ComboLast,
    NoRules,
}

/// The per-glyph resolution of a block policy: the manual policy takes the
/// string at the glyph's index, demoting an empty string to no rules; every
/// other policy maps to its kind unchanged.
pub open spec fn spec_lookups_from_mode(mode: LookupsMode, idx: int) -> Lookups {
    match mode {
        LookupsMode::WordLigFromLetters => Lookups::WordLigFromLetters,
        LookupsMode::WordLigManual(v) => {
            if v@[idx]@.len() > 0 {
                Lookups::WordLigManual(v@[idx])
            } else {
                Lookups::NoRules
            }
        },
        LookupsMode::StartLongGlyph => Lookups::StartLongGlyph,
        LookupsMode::Alt => Lookups::Alt,
        LookupsMode::ComboFirst => Lookups::ComboFirst,
        LookupsMode::ComboLast => Lookups::ComboLast,
        LookupsMode::NoRules => Lookups::NoRules,
    }
}

/// The glyph-name token for an arrow direction character.
pub open spec fn spec_dir_name(c: char) -> Seq<char> {
    if c == 'W' {
        "less"@
    } else if c == 'N' {
        "asciicircum"@
    } else if c == 'E' {
        "greater"@
    } else {
        "v"@
    }
}

/// Whether `c` is one of the four compass direction characters.
pub open spec fn spec_dir_known(c: char) -> bool {
    c == 'W' || c == 'N' || c == 'E' || c == 'S'
}

/// Whether `sel` is one of the closed set of selector suffixes: the eight
/// "VARnn" selectors or the eight compass arrow names.
pub open spec fn spec_sel_known(sel: Seq<char>) -> bool {
    ||| sel == "VAR01"@
    ||| sel == "arrowW"@
    ||| sel == "VAR02"@
    ||| sel == "arrowN"@
    ||| sel == "VAR03"@
    ||| sel == "arrowE"@
    ||| sel == "VAR04"@
    ||| sel == "arrowS"@
    ||| sel == "VAR05"@
    ||| sel == "arrowNW"@
    ||| sel == "VAR06"@
    ||| sel == "arrowNE"@
    ||| sel == "VAR07"@
    ||| sel == "arrowSE"@
    ||| sel == "VAR08"@
    ||| sel == "arrowSW"@
}

/// The textual ordinal for a selector suffix; the "VARnn" and arrow
/// tokenizations map to the same ordinal word.
pub open spec fn spec_sel_word(sel: Seq<char>) -> Seq<char> {
    if sel == "VAR01"@ || sel == "arrowW"@ {
        "one"@
    } else if sel == "VAR02"@ || sel == "arrowN"@ {
        "two"@
    } else if sel == "VAR03"@ || sel == "arrowE"@ {
        "three"@
    } else if sel == "VAR04"@ || sel == "arrowS"@ {
        "four"@
    } else if sel == "VAR05"@ || sel == "arrowNW"@ {
        "five"@
    } else if sel == "VAR06"@ || sel == "arrowNE"@ {
        "six"@
    } else if sel == "VAR07"@ || sel == "arrowSE"@ {
        "seven"@
    } else {
        "eight"@
    }
}

/// The letters of `name` as one-character strings.
pub open spec fn spec_letter_seq(name: Seq<char>) -> Seq<Seq<char>> {
    Seq::new(name.len(), |i: int| seq![name[i]])
}

/// The letters-ligature rules: the glyph's name split into space-separated
/// letters, matched once with a trailing space and once without; the glyph
/// "aleTok" carries two extra hard-coded rules for its historical spelling.
pub open spec fn spec_letters_lig(name: Seq<char>, full_name: Seq<char>) -> Seq<char> {
    let lig = spec_join(spec_letter_seq(name), " "@);
    let ali: Seq<char> = if full_name == "aleTok"@ {
        "Ligature2: \"'liga' WORD PLUS SPACE\" a l i space\nLigature2: \"'liga' WORD\" a l i\n"@
    } else {
        Seq::empty()
    };
    "Ligature2: \"'liga' WORD PLUS SPACE\" "@ + lig + " space\nLigature2: \"'liga' WORD\" "@ + lig
        + "\n"@ + ali
}

/// Whether a cartouche-alternate manual string names the start or the end
/// marker.
pub open spec fn spec_cart_which(w: Seq<char>) -> Seq<char> {
    if spec_contains(w, "start"@) {
        "startCart"@
    } else {
        "endCart"@
    }
}

/// The arrow rules of the Main variant: one or two direction characters
/// are decoded from fixed positions in the bare name into key tokens.
pub open spec fn spec_arrow_rules(name: Seq<char>) -> Seq<char> {
    let dir1 = spec_dir_name(name[5]);
    if name.len() > 6 {
        let dir2 = spec_dir_name(name[6]);
        "Ligature2: \"'liga' WORD PLUS SPACE\" "@ + dir1 + " "@ + dir2
            + " space\nLigature2: \"'liga' WORD PLUS SPACE\" "@ + dir2 + " "@ + dir1
            + " space\nLigature2: \"'liga' WORD\" "@ + dir1 + " "@ + dir2
            + "\nLigature2: \"'liga' WORD\" "@ + dir2 + " "@ + dir1 + "\n"@
    } else {
        "Ligature2: \"'liga' WORD PLUS SPACE\" "@ + dir1 + " space\nLigature2: \"'liga' WORD\" "@
            + dir1 + "\n"@
    }
}

/// The "always" manual-ligature rule, keyed on the manual string's
/// content: a middle-dot marker, a cartouche-alternate marker, the literal
/// glyph name "ZWJ", and two literal multi-letter strings each have their
/// own form; any other string contributes nothing here.
pub open spec fn spec_manual_always(w: Seq<char>, name: Seq<char>) -> Seq<char> {
    if spec_contains(w, "middleDotTok"@) {
        "Ligature2: \"'liga' VAR\" "@ + w + "\n"@
    } else if spec_contains(w, "CartAlt"@) {
        "Ligature2: \"'liga' VAR\" "@ + spec_cart_which(w) + "Tok VAR01\n"@
    } else if name == "ZWJ"@ {
        "Substitution2: \"'ss02' BECOME STACK\" joinStackTok\nSubstitution2: \"'ss01' BECOME SCALE\" joinScaleTok\n"@
    } else if w == "i t a n"@ {
        "Ligature2: \"'liga' VAR\" ijoTok ZWJ tanTok ZWJ anpaTok ZWJ nanpaTok\n"@
    } else if w == "l e p e k a"@ {
        "Ligature2: \"'liga' VAR\" meliTok ZWJ kuleTok ZWJ kuleTok\n"@
    } else {
        Seq::empty()
    }
}

/// The Latin-layout manual-ligature rule, emitted only in the Main variant
/// and suppressed by a middle-dot marker: double space, "arrow", "bar" and
/// cartouche-alternate strings each have bespoke output, and the default
/// emits the manual string as a two-form ligature.
pub open spec fn spec_manual_latin(
    w: Seq<char>,
    name: Seq<char>,
    variation: NasinNanpaVariation,
) -> Seq<char> {
    if variation is Main && !spec_contains(w, "middleDotTok"@) {
        if w == "space space"@ {
            "Ligature2: \"'liga' SPACE\" "@ + w
                + "\nLigature2: \"'liga' SPACE\" z z space\nLigature2: \"'liga' SPACE\" z z\n"@
        } else if w == "arrow"@ {
            spec_arrow_rules(name)
        } else if w == "bar"@ {
            "Ligature2: \"'liga' WORD PLUS SPACE\" bar space\nLigature2: \"'liga' WORD\" bar\n"@
        } else if spec_contains(w, "CartAlt"@) {
            "Ligature2: \"'liga' VAR PLUS SPACE\" "@ + spec_cart_which(w)
                + "Tok VAR01 space\nLigature2: \"'liga' VAR PLUS SPACE\" "@ + spec_cart_which(w)
                + "Tok one space\nLigature2: \"'liga' VAR\" "@ + spec_cart_which(w)
                + "Tok VAR01\nLigature2: \"'liga' VAR\" "@ + spec_cart_which(w) + "Tok one\n"@
        } else {
            "Ligature2: \"'liga' WORD PLUS SPACE\" "@ + w + " space\nLigature2: \"'liga' WORD\" "@
                + w + "\n"@
        }
    } else {
        Seq::empty()
    }
}

/// The manual-ligature rules: the "always" rule followed by the
/// Latin-layout rule.
pub open spec fn spec_manual_lig(
    w: Seq<char>,
    name: Seq<char>,
    variation: NasinNanpaVariation,
) -> Seq<char> {
    spec_manual_always(w, name) + spec_manual_latin(w, name, variation)
}

/// One slot of the cross-product family: the rules pairing variant `k` of
/// `stem` with the selector (given both as its final character and as its
/// ordinal word).
pub open spec fn spec_rerand_one(
    stem: Seq<char>,
    sel_digit: Seq<char>,
    sel_word: Seq<char>,
    variation: NasinNanpaVariation,
    k: nat,
) -> Seq<char> {
    if variation is Main {
        "Ligature2: \"'liga' VAR PLUS SPACE\" "@ + stem + "_VAR0"@ + seq![spec_digit(k)]
            + " VAR0"@ + sel_digit + " space\nLigature2: \"'liga' VAR PLUS SPACE\" "@ + stem
            + "_VAR0"@ + seq![spec_digit(k)] + " "@ + sel_word
            + " space\nLigature2: \"'liga' VAR\" "@ + stem + "_VAR0"@ + seq![spec_digit(k)]
            + " VAR0"@ + sel_digit + "\nLigature2: \"'liga' VAR\" "@ + stem + "_VAR0"@
            + seq![spec_digit(k)] + " "@ + sel_word + "\n"@
    } else {
        "Ligature2: \"'liga' VAR\" "@ + stem + "_VAR0"@ + seq![spec_digit(k)] + " VAR0"@
            + sel_digit + "\n"@
    }
}

/// The cross-product family for variants 1 through `n` of `stem`.
pub open spec fn spec_rerand_rules(
    stem: Seq<char>,
    sel_digit: Seq<char>,
    sel_word: Seq<char>,
    variation: NasinNanpaVariation,
    n: nat,
) -> Seq<char>
    decreases n,
{
    if n == 0 {
        Seq::empty()
    } else {
        spec_rerand_rules(stem, sel_digit, sel_word, variation, (n - 1) as nat) + spec_rerand_one(
            stem,
            sel_digit,
            sel_word,
            variation,
            n,
        )
    }
}

/// The alternate-selector rules: the decorated name splits into glyph and
/// selector; four literal names carry bespoke extra rules, an arrow variant
/// of "niTok" one more, the Main variant adds ordinal-word forms, and the
/// "jakiTok"/"koTok" families add the 8-way cross-product rules.
/// The bespoke extra rules that four literal decorated names contribute in
/// the alternate-selector derivation.
pub open spec fn spec_alt_a(full_name: Seq<char>, variation: NasinNanpaVariation) -> Seq<char> {
    if full_name == "aTok_VAR01"@ {
        "Ligature2: \"'liga' VAR\" semeTok ZWJ aTok\nLigature2: \"'liga' VAR\" aTok ZWJ semeTok\n"@
    } else if full_name == "aTok_VAR02"@ {
        "Ligature2: \"'liga' VAR\" aTok aTok\n"@
    } else if full_name == "aTok_VAR03"@ {
        "Ligature2: \"'liga' VAR\" aTok aTok aTok\n"@
    } else if full_name == "aTok_VAR04"@ && variation is Main {
        "Ligature2: \"'liga' VAR PLUS SPACE\" exclam question space\nLigature2: \"'liga' VAR PLUS SPACE\" question exclam space\nLigature2: \"'liga' VAR\" exclam question\nLigature2: \"'liga' VAR\" question exclam\n"@
    } else {
        Seq::empty()
    }
}

/// The Main-variant rule pairing the glyph with the raw selector and a
/// trailing space.
pub open spec fn spec_alt_if_main(
    glyph: Seq<char>,
    sel: Seq<char>,
    variation: NasinNanpaVariation,
) -> Seq<char> {
    if variation is Main {
        "Ligature2: \"'liga' VAR PLUS SPACE\" "@ + glyph + " "@ + sel + " space\n"@
    } else {
        Seq::empty()
    }
}

/// The base rule pairing the glyph with the raw selector.
pub open spec fn spec_alt_base(glyph: Seq<char>, sel: Seq<char>) -> Seq<char> {
    "Ligature2: \"'liga' VAR\" "@ + glyph + " "@ + sel + "\n"@
}

/// The extra zero-width-joiner rule of the arrow variants of "niTok".
pub open spec fn spec_alt_arrow(
    full_name: Seq<char>,
    glyph: Seq<char>,
    sel: Seq<char>,
) -> Seq<char> {
    if spec_contains(full_name, "niTok_arrow"@) {
        "Ligature2: \"'liga' VAR\" "@ + glyph + " ZWJ "@ + sel + "\n"@
    } else {
        Seq::empty()
    }
}

/// The Main-variant ordinal-word rules.
pub open spec fn spec_alt_num(
    glyph: Seq<char>,
    sel: Seq<char>,
    variation: NasinNanpaVariation,
) -> Seq<char> {
    if variation is Main {
        "Ligature2: \"'liga' VAR PLUS SPACE\" "@ + glyph + " "@ + spec_sel_word(sel)
            + " space\nLigature2: \"'liga' VAR\" "@ + glyph + " "@ + spec_sel_word(sel) + "\n"@
    } else {
        Seq::empty()
    }
}

/// The cross-product family contributed by the "jakiTok" and "koTok"
/// prefixes.
pub open spec fn spec_alt_rerand(
    full_name: Seq<char>,
    sel: Seq<char>,
    variation: NasinNanpaVariation,
) -> Seq<char> {
    let sel_digit = seq![sel[sel.len() - 1]];
    if spec_starts_with(full_name, "jakiTok"@) {
        spec_rerand_rules("jakiTok"@, sel_digit, spec_sel_word(sel), variation, 8)
    } else if spec_starts_with(full_name, "koTok"@) {
        spec_rerand_rules("koTok"@, sel_digit, spec_sel_word(sel), variation, 8)
    } else {
        Seq::empty()
    }
}

pub open spec fn spec_alt_lig(full_name: Seq<char>, variation: NasinNanpaVariation) -> Seq<char> {
    let glyph = spec_before_first(full_name, '_');
    let sel = spec_before_first(spec_after_first(full_name, '_'), '_');
    spec_alt_a(full_name, variation) + spec_alt_if_main(glyph, sel, variation) + spec_alt_base(
        glyph,
        sel,
    ) + spec_alt_arrow(full_name, glyph, sel) + spec_alt_num(glyph, sel, variation)
        + spec_alt_rerand(full_name, sel, variation)
}

/// The lookup-kind dispatch: the rule text derived from the resolved kind
/// and the glyph's names.
pub open spec fn spec_latin_ligs(
    lk: Lookups,
    name: Seq<char>,
    full_name: Seq<char>,
    variation: NasinNanpaVariation,
) -> Seq<char> {
    match lk {
        Lookups::WordLigFromLetters => spec_letters_lig(name, full_name),
        Lookups::WordLigManual(w) => spec_manual_lig(w@, name, variation),
        Lookups::StartLongGlyph => "Ligature2: \"'liga' START CONTAINER\" "@ + spec_before_last(
            full_name,
            '_',
        ) + " "@ + spec_after_last(full_name, '_') + "\n"@,
        Lookups::EndLongGlyph => "Ligature2: \"'liga' START CONTAINER\" endRevLongGlyphTok "@
            + spec_before_first(full_name, '_') + "\n"@,
        Lookups::Alt => spec_alt_lig(full_name, variation),
        Lookups::ComboFirst => "Ligature2: \"'liga' GLYPH THEN JOINER\" "@ + spec_before_last(
            full_name,
            '_',
        ) + " "@ + spec_after_last(full_name, '_')
            + "\nMultipleSubs2: \"'ccmp' RESPAWN JOINER\" "@ + full_name + " "@ + spec_after_last(
            full_name,
            '_',
        ) + "\n"@,
        Lookups::ComboLast => "Ligature2: \"'liga' JOINER THEN GLYPH\" "@ + spec_before_first(
            full_name,
            '_',
        ) + " "@ + spec_after_first(full_name, '_')
            + "\nLigature2: \"'liga' CC CLEANUP\" combCartExtHalfTok "@ + full_name
            + "\nLigature2: \"'liga' CC CLEANUP\" combLongGlyphExtHalfTok "@ + full_name
            + "\nLigature2: \"'liga' CC CLEANUP\" combCartExtTok "@ + full_name
            + "\nLigature2: \"'liga' CC CLEANUP\" combLongGlyphExtTok "@ + full_name + "\n"@,
        Lookups::NoRules => Seq::empty(),
    }
}

/// The random-alternate section appended for the two bare family names
/// "jakiTok" and "koTok": the ninth-selector cross-product rules plus one
/// random-selection rule over the eight variants.
pub open spec fn spec_rand_section(
    full_name: Seq<char>,
    variation: NasinNanpaVariation,
) -> Seq<char> {
    if full_name == "jakiTok"@ {
        spec_rerand_rules("jakiTok"@, seq!['9'], "nine"@, variation, 8)
            + "AlternateSubs2: \"'rand' RAND VARIATIONS\" jakiTok_VAR01 jakiTok_VAR02 jakiTok_VAR03 jakiTok_VAR04 jakiTok_VAR05 jakiTok_VAR06 jakiTok_VAR07 jakiTok_VAR08\n"@
    } else if full_name == "koTok"@ {
        spec_rerand_rules("koTok"@, seq!['9'], "nine"@, variation, 8)
            + "AlternateSubs2: \"'rand' RAND VARIATIONS\" koTok_VAR01 koTok_VAR02 koTok_VAR03 koTok_VAR04 koTok_VAR05 koTok_VAR06 koTok_VAR07 koTok_VAR08\n"@
    } else {
        Seq::empty()
    }
}

/// The full rule text for a glyph: the lookup-kind rules followed by the
/// random-alternate section.
pub open spec fn spec_lookups_gen(
    lk: Lookups,
    name: Seq<char>,
    full_name: Seq<char>,
    variation: NasinNanpaVariation,
) -> Seq<char> {
    spec_latin_ligs(lk, name, full_name, variation) + spec_rand_section(full_name, variation)
}

/// The well-formedness that rule synthesis assumes of a glyph's names:
/// every split the derivation performs must succeed and every selector or
/// direction lookup must hit the closed table.  The descriptor tables are
/// closed and satisfy this by construction; a name that violates it is a
/// build-time data error.
pub open spec fn spec_lookups_wf(
    lk: Lookups,
    name: Seq<char>,
    full_name: Seq<char>,
    variation: NasinNanpaVariation,
) -> bool {
    match lk {
        Lookups::WordLigFromLetters => true,
        Lookups::WordLigManual(w) => (w@ == "arrow"@ && variation is Main) ==> (name.len() >= 6
            && spec_dir_known(name[5]) && (name.len() > 6 ==> spec_dir_known(name[6]))),
        Lookups::StartLongGlyph => full_name.contains('_'),
        Lookups::EndLongGlyph => full_name.contains('_'),
        Lookups::Alt => full_name.contains('_') && spec_sel_known(
            spec_before_first(spec_after_first(full_name, '_'), '_'),
        ),
        Lookups::ComboFirst => full_name.contains('_'),
        Lookups::ComboLast => full_name.contains('_'),
        Lookups::NoRules => true,
    }
}

/// The glyph-name token for an arrow direction character.
fn dir_name(c: char) -> (r: &'static str)
    requires
        spec_dir_known(c),
    ensures
        r@ == spec_dir_name(c),
{
    if c == 'W' {
        let r = "less";
        proof {
            reveal_strlit("less");
        }
        r
    } else if c == 'N' {
        let r = "asciicircum";
        proof {
            reveal_strlit("asciicircum");
        }
        r
    } else if c == 'E' {
        let r = "greater";
        proof {
            reveal_strlit("greater");
        }
        r
    } else {
        let r = "v";
        proof {
            reveal_strlit("v");
        }
        r
    }
}

/// Which cartouche marker a cartouche-alternate manual string names.
fn cart_which(w: &str) -> (r: &'static str)
    ensures
        r@ == spec_cart_which(w@),
{
    if str_contains(w, "start") {
        "startCart"
    } else {
        "endCart"
    }
}

/// The ordinal word for a selector suffix.
fn sel_word(sel: &str) -> (r: &'static str)
    requires
        spec_sel_known(sel@),
    ensures
        r@ == spec_sel_word(sel@),
{
    if str_eq(sel, "VAR01") || str_eq(sel, "arrowW") {
        "one"
    } else if str_eq(sel, "VAR02") || str_eq(sel, "arrowN") {
        "two"
    } else if str_eq(sel, "VAR03") || str_eq(sel, "arrowE") {
        "three"
    } else if str_eq(sel, "VAR04") || str_eq(sel, "arrowS") {
        "four"
    } else if str_eq(sel, "VAR05") || str_eq(sel, "arrowNW") {
        "five"
    } else if str_eq(sel, "VAR06") || str_eq(sel, "arrowNE") {
        "six"
    } else if str_eq(sel, "VAR07") || str_eq(sel, "arrowSE") {
        "seven"
    } else {
        "eight"
    }
}

/// Whether `sel` is in the closed selector table.
pub fn sel_known_check(sel: &str) -> (b: bool)
    ensures
        b == spec_sel_known(sel@),
{
    str_eq(sel, "VAR01") || str_eq(sel, "arrowW") || str_eq(sel, "VAR02") || str_eq(sel, "arrowN")
        || str_eq(sel, "VAR03") || str_eq(sel, "arrowE") || str_eq(sel, "VAR04") || str_eq(
        sel,
        "arrowS",
    ) || str_eq(sel, "VAR05") || str_eq(sel, "arrowNW") || str_eq(sel, "VAR06") || str_eq(
        sel,
        "arrowNE",
    ) || str_eq(sel, "VAR07") || str_eq(sel, "arrowSE") || str_eq(sel, "VAR08") || str_eq(
        sel,
        "arrowSW",
    )
}

/// The letters of `name` joined with single spaces.
fn letters_spaced(name: &str) -> (r: String)
    ensures
        r@ == spec_join(spec_letter_seq(name@), " "@),
{
    let n = name.unicode_len();
    let mut pieces: Vec<String> = Vec::new();
    let mut i: usize = 0;
    while i < n
        invariant
            n == name@.len(),
            i <= n,
            pieces@.len() == i,
            forall|j: int| 0 <= j < i ==> #[trigger] pieces@[j]@ == name@.subrange(j, j + 1),
        decreases n - i,
    {
        pieces.push(substring(name, i, i + 1));
        i += 1;
    }
    proof {
        assert forall|j: int| 0 <= j < n implies pieces@[j]@ == spec_letter_seq(name@)[j] by {
            assert(name@.subrange(j, j + 1) =~= seq![name@[j]]);
        }
        assert(pieces.deep_view() =~= spec_letter_seq(name@));
    }
    join_strings(&pieces, " ")
}

/// Appends the cross-product rules for variants 1 through 8 of `stem`.
#[verifier::rlimit(100)]
fn append_rerand(
    s: &mut String,
    stem: &str,
    sel_digit: &str,
    sel_word: &str,
    variation: NasinNanpaVariation,
)
    ensures
        final(s)@ == old(s)@ + spec_rerand_rules(stem@, sel_digit@, sel_word@, variation, 8),
{
    let mut k: usize = 1;
    while k <= 8
        invariant
            1 <= k <= 9,
            s@ == old(s)@ + spec_rerand_rules(stem@, sel_digit@, sel_word@, variation, (k - 1) as nat),
        decreases 9 - k,
    {
        let d = digit_str(k);
        if variation == NasinNanpaVariation::Main {
            s.append("Ligature2: \"'liga' VAR PLUS SPACE\" ");
            s.append(stem);
            s.append("_VAR0");
            s.append(d);
            s.append(" VAR0");
            s.append(sel_digit);
            s.append(" space\nLigature2: \"'liga' VAR PLUS SPACE\" ");
            s.append(stem);
            s.append("_VAR0");
            s.append(d);
            s.append(" ");
            s.append(sel_word);
            s.append(" space\nLigature2: \"'liga' VAR\" ");
            s.append(stem);
            s.append("_VAR0");
            s.append(d);
            s.append(" VAR0");
            s.append(sel_digit);
            s.append("\nLigature2: \"'liga' VAR\" ");
            s.append(stem);
            s.append("_VAR0");
            s.append(d);
            s.append(" ");
            s.append(sel_word);
            s.append("\n");
        } else {
            s.append("Ligature2: \"'liga' VAR\" ");
            s.append(stem);
            s.append("_VAR0");
            s.append(d);
            s.append(" VAR0");
            s.append(sel_digit);
            s.append("\n");
        }
        proof {
            assert(s@ =~= old(s)@ + spec_rerand_rules(
                stem@,
                sel_digit@,
                sel_word@,
                variation,
                k as nat,
            ));
        }
        k += 1;
    }
}

/// Appends the "always" manual-ligature rule.
fn append_manual_always(s: &mut String, w: &str, name: &str)
    ensures
        final(s)@ == old(s)@ + spec_manual_always(w@, name@),
{
    if str_contains(w, "middleDotTok") {
        s.append("Ligature2: \"'liga' VAR\" ");
        s.append(w);
        s.append("\n");
    } else if str_contains(w, "CartAlt") {
        s.append("Ligature2: \"'liga' VAR\" ");
        s.append(cart_which(w));
        s.append("Tok VAR01\n");
    } else if str_eq(name, "ZWJ") {
        s.append(
            "Substitution2: \"'ss02' BECOME STACK\" joinStackTok\nSubstitution2: \"'ss01' BECOME SCALE\" joinScaleTok\n",
        );
    } else if str_eq(w, "i t a n") {
        s.append("Ligature2: \"'liga' VAR\" ijoTok ZWJ tanTok ZWJ anpaTok ZWJ nanpaTok\n");
    } else if str_eq(w, "l e p e k a") {
        s.append("Ligature2: \"'liga' VAR\" meliTok ZWJ kuleTok ZWJ kuleTok\n");
    }
    proof {
        assert(s@ =~= old(s)@ + spec_manual_always(w@, name@));
    }
}

/// Appends the arrow rules of the Main variant.
#[verifier::rlimit(100)]
fn append_arrow(s: &mut String, name: &str)
    requires
        name@.len() >= 6,
        spec_dir_known(name@[5]),
        name@.len() > 6 ==> spec_dir_known(name@[6]),
    ensures
        final(s)@ == old(s)@ + spec_arrow_rules(name@),
{
    let d1 = dir_name(name.get_char(5));
    if name.unicode_len() > 6 {
        let d2 = dir_name(name.get_char(6));
        s.append("Ligature2: \"'liga' WORD PLUS SPACE\" ");
        s.append(d1);
        s.append(" ");
        s.append(d2);
        s.append(" space\nLigature2: \"'liga' WORD PLUS SPACE\" ");
        s.append(d2);
        s.append(" ");
        s.append(d1);
        s.append(" space\nLigature2: \"'liga' WORD\" ");
        s.append(d1);
        s.append(" ");
        s.append(d2);
        s.append("\nLigature2: \"'liga' WORD\" ");
        s.append(d2);
        s.append(" ");
        s.append(d1);
        s.append("\n");
        proof {
            assert(s@ =~= old(s)@ + spec_arrow_rules(name@));
        }
    } else {
        s.append("Ligature2: \"'liga' WORD PLUS SPACE\" ");
        s.append(d1);
        s.append(" space\nLigature2: \"'liga' WORD\" ");
        s.append(d1);
        s.append("\n");
        proof {
            assert(s@ =~= old(s)@ + spec_arrow_rules(name@));
        }
    }
}

/// Appends the Latin-layout manual-ligature rule.
#[verifier::rlimit(100)]
fn append_manual_latin(s: &mut String, w: &str, name: &str, variation: NasinNanpaVariation)
    requires
        (w@ == "arrow"@ && variation is Main) ==> (name@.len() >= 6 && spec_dir_known(name@[5])
            && (name@.len() > 6 ==> spec_dir_known(name@[6]))),
    ensures
        final(s)@ == old(s)@ + spec_manual_latin(w@, name@, variation),
{
    let has_middle = str_contains(w, "middleDotTok");
    if variation == NasinNanpaVariation::Main && !has_middle {
        if str_eq(w, "space space") {
            s.append("Ligature2: \"'liga' SPACE\" ");
            s.append(w);
            s.append(
                "\nLigature2: \"'liga' SPACE\" z z space\nLigature2: \"'liga' SPACE\" z z\n",
            );
        } else if str_eq(w, "arrow") {
            append_arrow(s, name);
        } else if str_eq(w, "bar") {
            s.append(
                "Ligature2: \"'liga' WORD PLUS SPACE\" bar space\nLigature2: \"'liga' WORD\" bar\n",
            );
        } else if str_contains(w, "CartAlt") {
            let which = cart_which(w);
            s.append("Ligature2: \"'liga' VAR PLUS SPACE\" ");
            s.append(which);
            s.append("Tok VAR01 space\nLigature2: \"'liga' VAR PLUS SPACE\" ");
            s.append(which);
            s.append("Tok one space\nLigature2: \"'liga' VAR\" ");
            s.append(which);
            s.append("Tok VAR01\nLigature2: \"'liga' VAR\" ");
            s.append(which);
            s.append("Tok one\n");
        } else {
            s.append("Ligature2: \"'liga' WORD PLUS SPACE\" ");
            s.append(w);
            s.append(" space\nLigature2: \"'liga' WORD\" ");
            s.append(w);
            s.append("\n");
        }
    }
    proof {
        assert(s@ =~= old(s)@ + spec_manual_latin(w@, name@, variation));
    }
}

/// Appends the manual-ligature rules for manual string `w`.
fn append_manual(s: &mut String, w: &str, name: &str, variation: NasinNanpaVariation)
    requires
        (w@ == "arrow"@ && variation is Main) ==> (name@.len() >= 6 && spec_dir_known(name@[5])
            && (name@.len() > 6 ==> spec_dir_known(name@[6]))),
    ensures
        final(s)@ == old(s)@ + spec_manual_lig(w@, name@, variation),
{
    append_manual_always(s, w, name);
    append_manual_latin(s, w, name, variation);
    proof {
        assert(s@ =~= old(s)@ + spec_manual_lig(w@, name@, variation));
    }
}

/// Appends the bespoke extra rules of the four literal decorated names.
fn append_alt_a(s: &mut String, full_name: &str, variation: NasinNanpaVariation)
    ensures
        final(s)@ == old(s)@ + spec_alt_a(full_name@, variation),
{
    if str_eq(full_name, "aTok_VAR01") {
        s.append(
            "Ligature2: \"'liga' VAR\" semeTok ZWJ aTok\nLigature2: \"'liga' VAR\" aTok ZWJ semeTok\n",
        );
    } else if str_eq(full_name, "aTok_VAR02") {
        s.append("Ligature2: \"'liga' VAR\" aTok aTok\n");
    } else if str_eq(full_name, "aTok_VAR03") {
        s.append("Ligature2: \"'liga' VAR\" aTok aTok aTok\n");
    } else if str_eq(full_name, "aTok_VAR04") && variation == NasinNanpaVariation::Main {
        s.append(
            "Ligature2: \"'liga' VAR PLUS SPACE\" exclam question space\nLigature2: \"'liga' VAR PLUS SPACE\" question exclam space\nLigature2: \"'liga' VAR\" exclam question\nLigature2: \"'liga' VAR\" question exclam\n",
        );
    }
    proof {
        assert(s@ =~= old(s)@ + spec_alt_a(full_name@, variation));
    }
}

/// Appends the space-form and base alternate rules.
fn append_alt_head(s: &mut String, glyph: &str, sel: &str, variation: NasinNanpaVariation)
    ensures
        final(s)@ == old(s)@ + spec_alt_if_main(glyph@, sel@, variation) + spec_alt_base(
            glyph@,
            sel@,
        ),
{
    if variation == NasinNanpaVariation::Main {
        s.append("Ligature2: \"'liga' VAR PLUS SPACE\" ");
        s.append(glyph);
        s.append(" ");
        s.append(sel);
        s.append(" space\n");
    }
    s.append("Ligature2: \"'liga' VAR\" ");
    s.append(glyph);
    s.append(" ");
    s.append(sel);
    s.append("\n");
    proof {
        assert(s@ =~= old(s)@ + spec_alt_if_main(glyph@, sel@, variation) + spec_alt_base(
            glyph@,
            sel@,
        ));
    }
}

/// Appends the arrow-variant and ordinal-word alternate rules.
#[verifier::rlimit(100)]
fn append_alt_tail(
    s: &mut String,
    full_name: &str,
    glyph: &str,
    sel: &str,
    variation: NasinNanpaVariation,
)
    requires
        spec_sel_known(sel@),
    ensures
        final(s)@ == old(s)@ + spec_alt_arrow(full_name@, glyph@, sel@) + spec_alt_num(
            glyph@,
            sel@,
            variation,
        ),
{
    if str_contains(full_name, "niTok_arrow") {
        s.append("Ligature2: \"'liga' VAR\" ");
        s.append(glyph);
        s.append(" ZWJ ");
        s.append(sel);
        s.append("\n");
    }
    let ghost mid = s@;
    if variation == NasinNanpaVariation::Main {
        let sw = sel_word(sel);
        s.append("Ligature2: \"'liga' VAR PLUS SPACE\" ");
        s.append(glyph);
        s.append(" ");
        s.append(sw);
        s.append(" space\nLigature2: \"'liga' VAR\" ");
        s.append(glyph);
        s.append(" ");
        s.append(sw);
        s.append("\n");
    }
    proof {
        assert(mid =~= old(s)@ + spec_alt_arrow(full_name@, glyph@, sel@));
        assert(s@ =~= mid + spec_alt_num(glyph@, sel@, variation));
        assert(s@ =~= old(s)@ + spec_alt_arrow(full_name@, glyph@, sel@) + spec_alt_num(
            glyph@,
            sel@,
            variation,
        ));
    }
}

/// Appends the cross-product family of the "jakiTok" and "koTok" prefixes.
fn append_alt_rerand(
    s: &mut String,
    full_name: &str,
    sel: &str,
    variation: NasinNanpaVariation,
)
    requires
        spec_sel_known(sel@),
    ensures
        final(s)@ == old(s)@ + spec_alt_rerand(full_name@, sel@, variation),
{
    proof {
        reveal_strlit("VAR01");
        reveal_strlit("VAR02");
        reveal_strlit("VAR03");
        reveal_strlit("VAR04");
        reveal_strlit("VAR05");
        reveal_strlit("VAR06");
        reveal_strlit("VAR07");
        reveal_strlit("VAR08");
        reveal_strlit("arrowW");
        reveal_strlit("arrowN");
        reveal_strlit("arrowE");
        reveal_strlit("arrowS");
        reveal_strlit("arrowNW");
        reveal_strlit("arrowNE");
        reveal_strlit("arrowSE");
        reveal_strlit("arrowSW");
        assert(sel@.len() > 0);
    }
    let sl = sel.unicode_len();
    let sd = substring(sel, sl - 1, sl);
    proof {
        assert(sd@ =~= seq![sel@[sel@.len() - 1]]);
    }
    if str_starts_with(full_name, "jakiTok") {
        append_rerand(s, "jakiTok", sd.as_str(), sel_word(sel), variation);
    } else if str_starts_with(full_name, "koTok") {
        append_rerand(s, "koTok", sd.as_str(), sel_word(sel), variation);
    }
    proof {
        assert(s@ =~= old(s)@ + spec_alt_rerand(full_name@, sel@, variation));
    }
}

/// Appends the alternate-selector rules for decorated name `full_name`.
fn append_alt(s: &mut String, full_name: &str, variation: NasinNanpaVariation)
    requires
        full_name@.contains('_'),
        spec_sel_known(spec_before_first(spec_after_first(full_name@, '_'), '_')),
    ensures
        final(s)@ == old(s)@ + spec_alt_lig(full_name@, variation),
{
    let parts = split_first(full_name, '_');
    let glyph = parts.0;
    let rest = parts.1;
    proof {
        lemma_first_ix(rest@, '_');
    }
    let si = first_ix(rest.as_str(), '_');
    let sel = substring(rest.as_str(), 0, si);
    append_alt_a(s, full_name, variation);
    append_alt_head(s, glyph.as_str(), sel.as_str(), variation);
    append_alt_tail(s, full_name, glyph.as_str(), sel.as_str(), variation);
    append_alt_rerand(s, full_name, sel.as_str(), variation);
    proof {
        assert(s@ =~= old(s)@ + spec_alt_lig(full_name@, variation));
    }
}

impl Lookups {
    /// Resolves a block policy for the glyph at index `idx` within the
    /// block.
    pub fn new_from_mode(mode: &LookupsMode, idx: usize) -> (r: Self)
        requires
            mode matches LookupsMode::WordLigManual(v) ==> idx < v@.len(),
        ensures
            r == spec_lookups_from_mode(*mode, idx as int),
    {
        match mode {
            LookupsMode::WordLigFromLetters => Lookups::WordLigFromLetters,
            LookupsMode::WordLigManual(v) => {
                let sref = &v[idx];
                if sref.as_str().unicode_len() > 0 {
                    Lookups::WordLigManual(sref.clone())
                } else {
                    Lookups::NoRules
                }
            },
            LookupsMode::StartLongGlyph => Lookups::StartLongGlyph,
            LookupsMode::Alt => Lookups::Alt,
            LookupsMode::ComboFirst => Lookups::ComboFirst,
            LookupsMode::ComboLast => Lookups::ComboLast,
            LookupsMode::NoRules => Lookups::NoRules,
        }
    }

    /// Whether rule synthesis is defined for these names; false marks a
    /// descriptor-table error.
    pub fn wf_check(&self, name: &str, full_name: &str, variation: NasinNanpaVariation) -> (b:
        bool)
        ensures
            b == spec_lookups_wf(*self, name@, full_name@, variation),
    {
        match self {
            Lookups::WordLigFromLetters => true,
            Lookups::WordLigManual(w) => {
                if str_eq(w.as_str(), "arrow") && variation == NasinNanpaVariation::Main {
                    let n = name.unicode_len();
                    if n < 6 {
                        false
                    } else {
                        let c5 = name.get_char(5);
                        let ok5 = c5 == 'W' || c5 == 'N' || c5 == 'E' || c5 == 'S';
                        if n > 6 {
                            let c6 = name.get_char(6);
                            ok5 && (c6 == 'W' || c6 == 'N' || c6 == 'E' || c6 == 'S')
                        } else {
                            ok5
                        }
                    }
                } else {
                    true
                }
            },
            Lookups::StartLongGlyph => str_has_char(full_name, '_'),
            Lookups::EndLongGlyph => str_has_char(full_name, '_'),
            Lookups::Alt => {
                if !str_has_char(full_name, '_') {
                    false
                } else {
                    let parts = split_first(full_name, '_');
                    proof {
                        lemma_first_ix(parts.1@, '_');
                    }
                    let si = first_ix(parts.1.as_str(), '_');
                    let sel = substring(parts.1.as_str(), 0, si);
                    sel_known_check(sel.as_str())
                }
            },
            Lookups::ComboFirst => str_has_char(full_name, '_'),
            Lookups::ComboLast => str_has_char(full_name, '_'),
            Lookups::NoRules => true,
        }
    }

    /// Renders the rule text for a glyph with bare name `name` and
    /// decorated name `full_name`.
    #[verifier::rlimit(100)]
    pub fn gen(&self, name: &str, full_name: &str, variation: NasinNanpaVariation) -> (r: String)
        requires
            spec_lookups_wf(*self, name@, full_name@, variation),
        ensures
            r@ == spec_lookups_gen(*self, name@, full_name@, variation),
    {
        let mut s = String::new();
        match self {
            Lookups::WordLigFromLetters => {
                let lig = letters_spaced(name);
                s.append("Ligature2: \"'liga' WORD PLUS SPACE\" ");
                s.append(lig.as_str());
                s.append(" space\nLigature2: \"'liga' WORD\" ");
                s.append(lig.as_str());
                s.append("\n");
                if str_eq(full_name, "aleTok") {
                    s.append(
                        "Ligature2: \"'liga' WORD PLUS SPACE\" a l i space\nLigature2: \"'liga' WORD\" a l i\n",
                    );
                }
                proof {
                    assert(s@ =~= spec_latin_ligs(*self, name@, full_name@, variation));
                }
            },
            Lookups::WordLigManual(w) => {
                append_manual(&mut s, w.as_str(), name, variation);
                proof {
                    assert(s@ =~= spec_latin_ligs(*self, name@, full_name@, variation));
                }
            },
            Lookups::StartLongGlyph => {
                let parts = split_last(full_name, '_');
                s.append("Ligature2: \"'liga' START CONTAINER\" ");
                s.append(parts.0.as_str());
                s.append(" ");
                s.append(parts.1.as_str());
                s.append("\n");
                proof {
                    assert(s@ =~= spec_latin_ligs(*self, name@, full_name@, variation));
                }
            },
            Lookups::EndLongGlyph => {
                let parts = split_first(full_name, '_');
                s.append("Ligature2: \"'liga' START CONTAINER\" endRevLongGlyphTok ");
                s.append(parts.0.as_str());
                s.append("\n");
                proof {
                    assert(s@ =~= spec_latin_ligs(*self, name@, full_name@, variation));
                }
            },
            Lookups::Alt => {
                append_alt(&mut s, full_name, variation);
                proof {
                    assert(s@ =~= spec_latin_ligs(*self, name@, full_name@, variation));
                }
            },
            Lookups::ComboFirst => {
                let parts = split_last(full_name, '_');
                s.append("Ligature2: \"'liga' GLYPH THEN JOINER\" ");
                s.append(parts.0.as_str());
                s.append(" ");
                s.append(parts.1.as_str());
                s.append("\nMultipleSubs2: \"'ccmp' RESPAWN JOINER\" ");
                s.append(full_name);
                s.append(" ");
                s.append(parts.1.as_str());
                s.append("\n");
                proof {
                    assert(s@ =~= spec_latin_ligs(*self, name@, full_name@, variation));
                }
            },
            Lookups::ComboLast => {
                let parts = split_first(full_name, '_');
                s.append("Ligature2: \"'liga' JOINER THEN GLYPH\" ");
                s.append(parts.0.as_str());
                s.append(" ");
                s.append(parts.1.as_str());
                s.append("\nLigature2: \"'liga' CC CLEANUP\" combCartExtHalfTok ");
                s.append(full_name);
                s.append("\nLigature2: \"'liga' CC CLEANUP\" combLongGlyphExtHalfTok ");
                s.append(full_name);
                s.append("\nLigature2: \"'liga' CC CLEANUP\" combCartExtTok ");
                s.append(full_name);
                s.append("\nLigature2: \"'liga' CC CLEANUP\" combLongGlyphExtTok ");
                s.append(full_name);
                s.append("\n");
                proof {
                    assert(s@ =~= spec_latin_ligs(*self, name@, full_name@, variation));
                }
            },
            Lookups::NoRules => {
                proof {
                    assert(s@ =~= spec_latin_ligs(*self, name@, full_name@, variation));
                }
            },
        }
        let ghost latin = s@;
        if str_eq(full_name, "jakiTok") {
            append_rerand(&mut s, "jakiTok", "9", "nine", variation);
            s.append(
                "AlternateSubs2: \"'rand' RAND VARIATIONS\" jakiTok_VAR01 jakiTok_VAR02 jakiTok_VAR03 jakiTok_VAR04 jakiTok_VAR05 jakiTok_VAR06 jakiTok_VAR07 jakiTok_VAR08\n",
            );
            proof {
                reveal_strlit("9");
                assert("9"@ =~= seq!['9']);
                assert(s@ =~= latin + spec_rand_section(full_name@, variation));
            }
        } else if str_eq(full_name, "koTok") {
            append_rerand(&mut s, "koTok", "9", "nine", variation);
            s.append(
                "AlternateSubs2: \"'rand' RAND VARIATIONS\" koTok_VAR01 koTok_VAR02 koTok_VAR03 koTok_VAR04 koTok_VAR05 koTok_VAR06 koTok_VAR07 koTok_VAR08\n",
            );
            proof {
                reveal_strlit("9");
                assert("9"@ =~= seq!['9']);
                assert(s@ =~= latin + spec_rand_section(full_name@, variation));
            }
        } else {
            proof {
                assert(s@ =~= latin + spec_rand_section(full_name@, variation));
            }
        }
        proof {
            assert(s@ =~= spec_lookups_gen(*self, name@, full_name@, variation));
        }
        s
    }
}

} // verus!
