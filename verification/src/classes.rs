//! The global classification assembler: scans the finished blocks to build
//! the class tables consumed by the two top-level contextual rule blocks —
//! the scale/stack classes of the zero-width-joiner rewrite rule, and the
//! base/cart/cont classes of the cartouche/continuation chain rule.

use crate::block::GlyphBlock;
use crate::glyph_full::GlyphFull;
use crate::strutil::{
    dec_nat, digit_str, join_strings, spec_contains, spec_dec_nat, spec_digit, spec_join,
    str_contains, str_eq,
};
use vstd::prelude::*;
use vstd::string::StrSliceExecFns;
use vstd::string::StringExecFns;
use vstd::utf8::encode_utf8;

verus! {

/// Each name with "Tok" appended when `tok` holds, unchanged otherwise.
pub open spec fn spec_decorate_all(names: Seq<Seq<char>>, tok: bool) -> Seq<Seq<char>> {
    names.map_values(
        |n: Seq<char>|
            n + (if tok {
                "Tok"@
            } else {
                Seq::<char>::empty()
            }),
    )
}

/// The bare names of a run's non-filler glyphs, in order.
pub open spec fn spec_class_bare(gs: Seq<GlyphFull>) -> Seq<Seq<char>>
    decreases gs.len(),
{
    if gs.len() == 0 {
        Seq::empty()
    } else {
        let init = spec_class_bare(gs.drop_last());
        if !spec_contains(gs.last().glyph.name@, "empty"@) {
            init.push(gs.last().glyph.name@)
        } else {
            init
        }
    }
}

/// The scale-class entries of a run: its non-filler names, decorated.
pub open spec fn spec_class_names(gs: Seq<GlyphFull>, tok: bool) -> Seq<Seq<char>> {
    spec_decorate_all(spec_class_bare(gs), tok)
}

/// The bare names of a run's glyphs that enter the stack class: not a
/// filler, not an arrow variant, and — the exclusion rule — not already a
/// member of the scale set, compared before decoration.
pub open spec fn spec_stack_bare(gs: Seq<GlyphFull>, scale: Seq<Seq<char>>) -> Seq<Seq<char>>
    decreases gs.len(),
{
    if gs.len() == 0 {
        Seq::empty()
    } else {
        let init = spec_stack_bare(gs.drop_last(), scale);
        let n = gs.last().glyph.name@;
        if !spec_contains(n, "empty"@) && !spec_contains(n, "arrow"@) && !scale.contains(n) {
            init.push(n)
        } else {
            init
        }
    }
}

/// The stack-class entries of a run, decorated.
pub open spec fn spec_stack_names(
    gs: Seq<GlyphFull>,
    tok: bool,
    scale: Seq<Seq<char>>,
) -> Seq<Seq<char>> {
    spec_decorate_all(spec_stack_bare(gs, scale), tok)
}

/// A name present in the scale set never appears among a run's stack-class
/// names, even when a glyph of that name sits in the run.
pub proof fn lemma_stack_excludes_scale(gs: Seq<GlyphFull>, scale: Seq<Seq<char>>, n: Seq<char>)
    requires
        scale.contains(n),
    ensures
        !spec_stack_bare(gs, scale).contains(n),
    decreases gs.len(),
{
    if gs.len() > 0 {
        lemma_stack_excludes_scale(gs.drop_last(), scale, n);
        let init = spec_stack_bare(gs.drop_last(), scale);
        let whole = spec_stack_bare(gs, scale);
        if whole.len() > init.len() {
            assert forall|i: int| 0 <= i < whole.len() implies whole[i] != n by {
                if i < init.len() {
                    assert(whole[i] == init[i]);
                    assert(!init.contains(n) ==> init[i] != n);
                }
            }
        } else {
            assert(whole =~= init);
        }
    }
}

/// A class declaration: `Class: <byte length> <body>`, the length as the
/// machine computes it.
pub open spec fn spec_class_line(body: Seq<char>) -> Seq<char> {
    "Class: "@ + spec_dec_nat((encode_utf8(body).len() as usize) as nat) + " "@ + body
}

/// One three-line class list with the given position prefix.
pub open spec fn spec_sub_one(
    p: Seq<char>,
    c1: Seq<char>,
    c2: Seq<char>,
    c3: Seq<char>,
) -> Seq<char> {
    "  "@ + p + c1 + "\n  "@ + p + c2 + "\n  "@ + p + c3 + "\n"@
}

/// The three parallel class lists (unprefixed, "B"-prefixed,
/// "F"-prefixed) wrapping the same three class lines.
pub open spec fn spec_sub_triple(c1: Seq<char>, c2: Seq<char>, c3: Seq<char>) -> Seq<char> {
    spec_sub_one(Seq::empty(), c1, c2, c3) + spec_sub_one("B"@, c1, c2, c3) + spec_sub_one(
        "F"@,
        c1,
        c2,
        c3,
    )
}

/// The scale set: the bare non-filler names of the three outer blocks.
pub open spec fn spec_scale_set(
    outer: GlyphBlock,
    ext_outer: GlyphBlock,
    alt_outer: GlyphBlock,
) -> Seq<Seq<char>> {
    spec_class_bare(outer.glyphs@) + spec_class_bare(ext_outer.glyphs@) + spec_class_bare(
        alt_outer.glyphs@,
    )
}

/// The body of the scale class: the three outer blocks' entries, each
/// block's entries joined with spaces and the three results joined with
/// spaces; the first two blocks' names take the "Tok" decoration, the
/// alternate block's do not.
pub open spec fn spec_scale_body(
    outer: GlyphBlock,
    ext_outer: GlyphBlock,
    alt_outer: GlyphBlock,
) -> Seq<char> {
    spec_join(
        seq![
            spec_join(spec_class_names(outer.glyphs@, true), " "@),
            spec_join(spec_class_names(ext_outer.glyphs@, true), " "@),
            spec_join(spec_class_names(alt_outer.glyphs@, false), " "@),
        ],
        " "@,
    )
}

/// The body of the stack class: as the scale body, over the three lower
/// blocks, with the scale-set exclusion applied to each.
pub open spec fn spec_stack_body(
    lower: GlyphBlock,
    ext_lower: GlyphBlock,
    alt_lower: GlyphBlock,
    scale: Seq<Seq<char>>,
) -> Seq<char> {
    spec_join(
        seq![
            spec_join(spec_stack_names(lower.glyphs@, true, scale), " "@),
            spec_join(spec_stack_names(ext_lower.glyphs@, true, scale), " "@),
            spec_join(spec_stack_names(alt_lower.glyphs@, false, scale), " "@),
        ],
        " "@,
    )
}

/// The contextual-substitution rule body that rewrites a zero-width
/// joiner according to what follows it.
pub open spec fn spec_context_subs(
    outer: GlyphBlock,
    ext_outer: GlyphBlock,
    alt_outer: GlyphBlock,
    lower: GlyphBlock,
    ext_lower: GlyphBlock,
    alt_lower: GlyphBlock,
) -> Seq<char> {
    let zwj = spec_class_line("ZWJ"@);
    let scale = spec_class_line(spec_scale_body(outer, ext_outer, alt_outer));
    let stack = spec_class_line(
        spec_stack_body(lower, ext_lower, alt_lower, spec_scale_set(outer, ext_outer, alt_outer)),
    );
    "ContextSub2: class \"'calt' CHANGE ZWJ\" 4 4 4 2\n"@ + spec_sub_triple(zwj, scale, stack)
}

/// The decorated names of the control block's glyphs, excluding the
/// half-extension and tick variants.
pub open spec fn spec_ctrl_names(
    gs: Seq<GlyphFull>,
    prefix: Seq<char>,
    suffix: Seq<char>,
) -> Seq<Seq<char>>
    decreases gs.len(),
{
    if gs.len() == 0 {
        Seq::empty()
    } else {
        let init = spec_ctrl_names(gs.drop_last(), prefix, suffix);
        let n = gs.last().glyph.name@;
        if !spec_contains(n, "Half"@) && !spec_contains(n, "Tick"@) {
            init.push(prefix + n + suffix)
        } else {
            init
        }
    }
}

/// The decorated names of all of a run's glyphs, fillers included.
pub open spec fn spec_all_names(
    gs: Seq<GlyphFull>,
    prefix: Seq<char>,
    suffix: Seq<char>,
) -> Seq<Seq<char>>
    decreases gs.len(),
{
    if gs.len() == 0 {
        Seq::empty()
    } else {
        spec_all_names(gs.drop_last(), prefix, suffix).push(
            prefix + gs.last().glyph.name@ + suffix,
        )
    }
}

/// The decorated names of the long-glyph block, excluding the one literal
/// exception "laTok".
pub open spec fn spec_long_names(
    gs: Seq<GlyphFull>,
    prefix: Seq<char>,
    suffix: Seq<char>,
) -> Seq<Seq<char>>
    decreases gs.len(),
{
    if gs.len() == 0 {
        Seq::empty()
    } else {
        let init = spec_long_names(gs.drop_last(), prefix, suffix);
        let n = gs.last().glyph.name@;
        if n != "laTok"@ {
            init.push(prefix + n + suffix)
        } else {
            init
        }
    }
}

/// The eight generated cartouche tick token names.
pub open spec fn spec_tick_names(n: nat) -> Seq<Seq<char>>
    decreases n,
{
    if n == 0 {
        Seq::empty()
    } else {
        spec_tick_names((n - 1) as nat).push("combCartExt"@ + seq![spec_digit(n)] + "TickTok"@)
    }
}

/// The per-block space-joined decorated name lists of the main blocks.
pub open spec fn spec_main_name_lists(bs: Seq<GlyphBlock>) -> Seq<Seq<char>>
    decreases bs.len(),
{
    if bs.len() == 0 {
        Seq::empty()
    } else {
        spec_main_name_lists(bs.drop_last()).push(
            spec_join(
                spec_all_names(bs.last().glyphs@, bs.last().prefix@, bs.last().suffix@),
                " "@,
            ),
        )
    }
}

/// The body of the base class: the control block's surviving names, the
/// two joiner tokens, and every glyph of every main block, all decorated.
pub open spec fn spec_base_body(ctrl: GlyphBlock, main_blocks: Seq<GlyphBlock>) -> Seq<char> {
    spec_join(spec_ctrl_names(ctrl.glyphs@, ctrl.prefix@, ctrl.suffix@), " "@)
        + " joinStackTok joinScaleTok "@ + spec_join(spec_main_name_lists(main_blocks), " "@)
}

/// The body of the cart class: two fixed markers, the eight generated
/// tick tokens, and three fixed markers.
pub open spec fn spec_cart_body() -> Seq<char> {
    "combCartExtHalfTok combCartExtNoneTok"@ + " "@ + spec_join(spec_tick_names(8), " "@) + " "@
        + "startCartTok combCartExtTok startCartAltTok"@
}

/// The body of the cont class: the fixed marker list plus the long-glyph
/// block's decorated names.
pub open spec fn spec_cont_body(start_long: GlyphBlock) -> Seq<char> {
    "combLongGlyphExtHalfTok startLongPiTok combLongPiExtTok startLongGlyphTok combLongGlyphExtTok startRevLongGlyphTok "@
        + spec_join(
        spec_long_names(start_long.glyphs@, start_long.prefix@, start_long.suffix@),
        " "@,
    )
}

/// The chain-substitution rule body governing cartouche and
/// continuation-mark placement.
pub open spec fn spec_chain_subs(
    ctrl: GlyphBlock,
    start_long: GlyphBlock,
    main_blocks: Seq<GlyphBlock>,
) -> Seq<char> {
    let base = spec_class_line(spec_base_body(ctrl, main_blocks));
    let cart = spec_class_line(spec_cart_body());
    let cont = spec_class_line(spec_cont_body(start_long));
    "ChainSub2: class \"'calt' CART AND CONT\" 4 4 4 2\n"@ + spec_sub_triple(base, cart, cont)
}

/// Decoration distributes over appending one name.
pub proof fn lemma_decorate_push(b: Seq<Seq<char>>, n: Seq<char>, tok: bool)
    ensures
        spec_decorate_all(b.push(n), tok) == spec_decorate_all(b, tok).push(
            n + (if tok {
                "Tok"@
            } else {
                Seq::<char>::empty()
            }),
        ),
{
    assert(spec_decorate_all(b.push(n), tok) =~= spec_decorate_all(b, tok).push(
        n + (if tok {
            "Tok"@
        } else {
            Seq::<char>::empty()
        }),
    ));
}

/// Decorating with nothing leaves the names unchanged.
pub proof fn lemma_decorate_false(x: Seq<Seq<char>>)
    ensures
        spec_decorate_all(x, false) == x,
{
    assert forall|i: int| 0 <= i < x.len() implies spec_decorate_all(x, false)[i] == x[i] by {
        assert(x[i] + Seq::<char>::empty() =~= x[i]);
    }
    assert(spec_decorate_all(x, false) =~= x);
}

/// Whether any string of `v` equals `n`.
fn vec_contains_str(v: &Vec<String>, n: &str) -> (b: bool)
    ensures
        b == v.deep_view().contains(n@),
{
    let mut i: usize = 0;
    while i < v.len()
        invariant
            i <= v@.len(),
            forall|j: int| 0 <= j < i ==> v.deep_view()[j] != n@,
        decreases v@.len() - i,
    {
        if str_eq(v[i].as_str(), n) {
            proof {
                assert(v.deep_view()[i as int] == n@);
            }
            return true;
        }
        i += 1;
    }
    false
}

/// The non-filler names of a block's glyphs, decorated.
fn class_names(b: &GlyphBlock, tok: bool) -> (r: Vec<String>)
    ensures
        r.deep_view() == spec_class_names(b.glyphs@, tok),
{
    let mut out: Vec<String> = Vec::new();
    let mut i: usize = 0;
    while i < b.glyphs.len()
        invariant
            i <= b.glyphs@.len(),
            out.deep_view() == spec_class_names(b.glyphs@.subrange(0, i as int), tok),
        decreases b.glyphs@.len() - i,
    {
        let name = &b.glyphs[i].glyph.name;
        if !str_contains(name.as_str(), "empty") {
            let mut s = name.clone();
            if tok {
                s.append("Tok");
            } else {
                proof {
                    assert(s@ =~= name@ + Seq::<char>::empty());
                }
            }
            out.push(s);
        }
        i += 1;
        proof {
            let pre = b.glyphs@.subrange(0, i as int);
            assert(pre.drop_last() =~= b.glyphs@.subrange(0, i - 1));
            if !spec_contains(pre.last().glyph.name@, "empty"@) {
                lemma_decorate_push(spec_class_bare(pre.drop_last()), pre.last().glyph.name@, tok);
            }
            assert(out.deep_view() =~= spec_class_names(pre, tok));
        }
    }
    proof {
        assert(b.glyphs@.subrange(0, b.glyphs@.len() as int) =~= b.glyphs@);
    }
    out
}

/// The stack-class names of a block's glyphs: non-filler, non-arrow, and
/// not already in the scale set.
fn stack_names(b: &GlyphBlock, tok: bool, scale: &Vec<String>) -> (r: Vec<String>)
    ensures
        r.deep_view() == spec_stack_names(b.glyphs@, tok, scale.deep_view()),
{
    let mut out: Vec<String> = Vec::new();
    let mut i: usize = 0;
    while i < b.glyphs.len()
        invariant
            i <= b.glyphs@.len(),
            out.deep_view() == spec_stack_names(
                b.glyphs@.subrange(0, i as int),
                tok,
                scale.deep_view(),
            ),
        decreases b.glyphs@.len() - i,
    {
        let name = &b.glyphs[i].glyph.name;
        if !str_contains(name.as_str(), "empty") && !str_contains(name.as_str(), "arrow")
            && !vec_contains_str(scale, name.as_str()) {
            let mut s = name.clone();
            if tok {
                s.append("Tok");
            } else {
                proof {
                    assert(s@ =~= name@ + Seq::<char>::empty());
                }
            }
            out.push(s);
        }
        i += 1;
        proof {
            let pre = b.glyphs@.subrange(0, i as int);
            assert(pre.drop_last() =~= b.glyphs@.subrange(0, i - 1));
            let n = pre.last().glyph.name@;
            if !spec_contains(n, "empty"@) && !spec_contains(n, "arrow"@)
                && !scale.deep_view().contains(n) {
                lemma_decorate_push(spec_stack_bare(pre.drop_last(), scale.deep_view()), n, tok);
            }
            assert(out.deep_view() =~= spec_stack_names(pre, tok, scale.deep_view()));
        }
    }
    proof {
        assert(b.glyphs@.subrange(0, b.glyphs@.len() as int) =~= b.glyphs@);
    }
    out
}

/// A class declaration line for the given body.
fn class_line(body: &str) -> (r: String)
    ensures
        r@ == spec_class_line(body@),
{
    let mut s = String::from_str("Class: ");
    let n = dec_nat(body.len());
    s.append(n.as_str());
    s.append(" ");
    s.append(body);
    proof {
        assert(s@ =~= spec_class_line(body@));
    }
    s
}

/// Appends one three-line class list with the given position prefix.
fn append_sub_one(s: &mut String, p: &str, c1: &str, c2: &str, c3: &str)
    ensures
        final(s)@ == old(s)@ + spec_sub_one(p@, c1@, c2@, c3@),
{
    s.append("  ");
    s.append(p);
    s.append(c1);
    s.append("\n  ");
    s.append(p);
    s.append(c2);
    s.append("\n  ");
    s.append(p);
    s.append(c3);
    s.append("\n");
    proof {
        assert(s@ =~= old(s)@ + spec_sub_one(p@, c1@, c2@, c3@));
    }
}

/// Appends the three parallel class lists.
fn append_sub_triple(s: &mut String, c1: &str, c2: &str, c3: &str)
    ensures
        final(s)@ == old(s)@ + spec_sub_triple(c1@, c2@, c3@),
{
    append_sub_one(s, "", c1, c2, c3);
    append_sub_one(s, "B", c1, c2, c3);
    append_sub_one(s, "F", c1, c2, c3);
    proof {
        reveal_strlit("");
        assert(""@ =~= Seq::<char>::empty());
        assert(s@ =~= old(s)@ + spec_sub_triple(c1@, c2@, c3@));
    }
}

/// Builds the contextual-substitution rule body that rewrites a
/// zero-width joiner according to what follows it: a scale class from the
/// three outer blocks, and a stack class from the three lower blocks with
/// the scale-set exclusion applied.
pub fn context_subs(
    outer: &GlyphBlock,
    ext_outer: &GlyphBlock,
    alt_outer: &GlyphBlock,
    lower: &GlyphBlock,
    ext_lower: &GlyphBlock,
    alt_lower: &GlyphBlock,
) -> (r: String)
    ensures
        r@ == spec_context_subs(*outer, *ext_outer, *alt_outer, *lower, *ext_lower, *alt_lower),
{
    let n0 = class_names(outer, true);
    let n1 = class_names(ext_outer, true);
    let n2 = class_names(alt_outer, false);
    let j0 = join_strings(&n0, " ");
    let j1 = join_strings(&n1, " ");
    let j2 = join_strings(&n2, " ");
    let mut parts: Vec<String> = Vec::new();
    let ghost j0v = j0@;
    let ghost j1v = j1@;
    let ghost j2v = j2@;
    parts.push(j0);
    parts.push(j1);
    parts.push(j2);
    proof {
        assert(parts.deep_view() =~= seq![j0v, j1v, j2v]);
    }
    let scale_body = join_strings(&parts, " ");
    proof {
        assert(scale_body@ == spec_scale_body(*outer, *ext_outer, *alt_outer));
    }
    let mut scale_set = class_names(outer, false);
    let mut b1 = class_names(ext_outer, false);
    let mut b2 = class_names(alt_outer, false);
    scale_set.append(&mut b1);
    scale_set.append(&mut b2);
    proof {
        lemma_decorate_false(spec_class_bare(outer.glyphs@));
        lemma_decorate_false(spec_class_bare(ext_outer.glyphs@));
        lemma_decorate_false(spec_class_bare(alt_outer.glyphs@));
        assert(scale_set.deep_view() =~= spec_scale_set(*outer, *ext_outer, *alt_outer));
    }
    let t0 = stack_names(lower, true, &scale_set);
    let t1 = stack_names(ext_lower, true, &scale_set);
    let t2 = stack_names(alt_lower, false, &scale_set);
    let k0 = join_strings(&t0, " ");
    let k1 = join_strings(&t1, " ");
    let k2 = join_strings(&t2, " ");
    let mut stack_parts: Vec<String> = Vec::new();
    let ghost k0v = k0@;
    let ghost k1v = k1@;
    let ghost k2v = k2@;
    stack_parts.push(k0);
    stack_parts.push(k1);
    stack_parts.push(k2);
    proof {
        assert(stack_parts.deep_view() =~= seq![k0v, k1v, k2v]);
    }
    let stack_body = join_strings(&stack_parts, " ");
    proof {
        assert(stack_body@ == spec_stack_body(
            *lower,
            *ext_lower,
            *alt_lower,
            spec_scale_set(*outer, *ext_outer, *alt_outer),
        ));
    }
    let zwj_line = class_line("ZWJ");
    let scale_line = class_line(scale_body.as_str());
    let stack_line = class_line(stack_body.as_str());
    let mut s = String::from_str("ContextSub2: class \"'calt' CHANGE ZWJ\" 4 4 4 2\n");
    append_sub_triple(&mut s, zwj_line.as_str(), scale_line.as_str(), stack_line.as_str());
    proof {
        assert(s@ =~= spec_context_subs(
            *outer,
            *ext_outer,
            *alt_outer,
            *lower,
            *ext_lower,
            *alt_lower,
        ));
    }
    s
}

/// The decorated names of the control block's glyphs, excluding the
/// half-extension and tick variants.
fn ctrl_names(b: &GlyphBlock) -> (r: Vec<String>)
    ensures
        r.deep_view() == spec_ctrl_names(b.glyphs@, b.prefix@, b.suffix@),
{
    let mut out: Vec<String> = Vec::new();
    let mut i: usize = 0;
    while i < b.glyphs.len()
        invariant
            i <= b.glyphs@.len(),
            out.deep_view() == spec_ctrl_names(
                b.glyphs@.subrange(0, i as int),
                b.prefix@,
                b.suffix@,
            ),
        decreases b.glyphs@.len() - i,
    {
        let name = &b.glyphs[i].glyph.name;
        if !str_contains(name.as_str(), "Half") && !str_contains(name.as_str(), "Tick") {
            let mut s = String::new();
            s.append(b.prefix.as_str());
            s.append(name.as_str());
            s.append(b.suffix.as_str());
            out.push(s);
        }
        i += 1;
        proof {
            let pre = b.glyphs@.subrange(0, i as int);
            assert(pre.drop_last() =~= b.glyphs@.subrange(0, i - 1));
            assert(out.deep_view() =~= spec_ctrl_names(pre, b.prefix@, b.suffix@));
        }
    }
    proof {
        assert(b.glyphs@.subrange(0, b.glyphs@.len() as int) =~= b.glyphs@);
    }
    out
}

/// The decorated names of all of a block's glyphs, fillers included.
fn all_names(b: &GlyphBlock) -> (r: Vec<String>)
    ensures
        r.deep_view() == spec_all_names(b.glyphs@, b.prefix@, b.suffix@),
{
    let mut out: Vec<String> = Vec::new();
    let mut i: usize = 0;
    while i < b.glyphs.len()
        invariant
            i <= b.glyphs@.len(),
            out.deep_view() == spec_all_names(
                b.glyphs@.subrange(0, i as int),
                b.prefix@,
                b.suffix@,
            ),
        decreases b.glyphs@.len() - i,
    {
        let name = &b.glyphs[i].glyph.name;
        let mut s = String::new();
        s.append(b.prefix.as_str());
        s.append(name.as_str());
        s.append(b.suffix.as_str());
        proof {
            assert(s@ =~= b.prefix@ + name@ + b.suffix@);
        }
        out.push(s);
        i += 1;
        proof {
            let pre = b.glyphs@.subrange(0, i as int);
            assert(pre.drop_last() =~= b.glyphs@.subrange(0, i - 1));
            assert(out.deep_view() =~= spec_all_names(pre, b.prefix@, b.suffix@));
        }
    }
    proof {
        assert(b.glyphs@.subrange(0, b.glyphs@.len() as int) =~= b.glyphs@);
    }
    out
}

/// The decorated names of the long-glyph block, excluding "laTok".
fn long_names(b: &GlyphBlock) -> (r: Vec<String>)
    ensures
        r.deep_view() == spec_long_names(b.glyphs@, b.prefix@, b.suffix@),
{
    let mut out: Vec<String> = Vec::new();
    let mut i: usize = 0;
    while i < b.glyphs.len()
        invariant
            i <= b.glyphs@.len(),
            out.deep_view() == spec_long_names(
                b.glyphs@.subrange(0, i as int),
                b.prefix@,
                b.suffix@,
            ),
        decreases b.glyphs@.len() - i,
    {
        let name = &b.glyphs[i].glyph.name;
        if !str_eq(name.as_str(), "laTok") {
            let mut s = String::new();
            s.append(b.prefix.as_str());
            s.append(name.as_str());
            s.append(b.suffix.as_str());
            out.push(s);
        }
        i += 1;
        proof {
            let pre = b.glyphs@.subrange(0, i as int);
            assert(pre.drop_last() =~= b.glyphs@.subrange(0, i - 1));
            assert(out.deep_view() =~= spec_long_names(pre, b.prefix@, b.suffix@));
        }
    }
    proof {
        assert(b.glyphs@.subrange(0, b.glyphs@.len() as int) =~= b.glyphs@);
    }
    out
}

/// The eight generated cartouche tick token names.
fn tick_names() -> (r: Vec<String>)
    ensures
        r.deep_view() == spec_tick_names(8),
{
    let mut out: Vec<String> = Vec::new();
    let mut k: usize = 1;
    while k <= 8
        invariant
            1 <= k <= 9,
            out@.len() == k - 1,
            out.deep_view() == spec_tick_names((k - 1) as nat),
        decreases 9 - k,
    {
        let mut s = String::from_str("combCartExt");
        s.append(digit_str(k));
        s.append("TickTok");
        out.push(s);
        k += 1;
        proof {
            assert(out.deep_view() =~= spec_tick_names((k - 1) as nat));
        }
    }
    out
}

/// The per-block space-joined decorated name lists of the main blocks.
fn main_name_lists(bs: &Vec<GlyphBlock>) -> (r: Vec<String>)
    ensures
        r.deep_view() == spec_main_name_lists(bs@),
{
    let mut out: Vec<String> = Vec::new();
    let mut i: usize = 0;
    while i < bs.len()
        invariant
            i <= bs@.len(),
            out.deep_view() == spec_main_name_lists(bs@.subrange(0, i as int)),
        decreases bs@.len() - i,
    {
        let names = all_names(&bs[i]);
        let joined = join_strings(&names, " ");
        out.push(joined);
        i += 1;
        proof {
            let pre = bs@.subrange(0, i as int);
            assert(pre.drop_last() =~= bs@.subrange(0, i - 1));
            assert(out.deep_view() =~= spec_main_name_lists(pre));
        }
    }
    proof {
        assert(bs@.subrange(0, bs@.len() as int) =~= bs@);
    }
    out
}

/// Builds the chain-substitution rule body governing cartouche and
/// continuation-mark placement: a base class from the control block and
/// every main block, a cart class of fixed and generated marker names,
/// and a cont class of fixed markers plus the long-glyph block's names.
pub fn chain_subs(
    ctrl: &GlyphBlock,
    start_long: &GlyphBlock,
    main_blocks: &Vec<GlyphBlock>,
) -> (r: String)
    ensures
        r@ == spec_chain_subs(*ctrl, *start_long, main_blocks@),
{
    let cn = ctrl_names(ctrl);
    let cj = join_strings(&cn, " ");
    let ml = main_name_lists(main_blocks);
    let mj = join_strings(&ml, " ");
    let mut base_body = cj;
    base_body.append(" joinStackTok joinScaleTok ");
    base_body.append(mj.as_str());
    proof {
        assert(base_body@ =~= spec_base_body(*ctrl, main_blocks@));
    }
    let ticks = tick_names();
    let tj = join_strings(&ticks, " ");
    let mut cart_body = String::from_str("combCartExtHalfTok combCartExtNoneTok");
    cart_body.append(" ");
    cart_body.append(tj.as_str());
    cart_body.append(" ");
    cart_body.append("startCartTok combCartExtTok startCartAltTok");
    proof {
        assert(cart_body@ =~= spec_cart_body());
    }
    let ln = long_names(start_long);
    let lj = join_strings(&ln, " ");
    let mut cont_body = String::from_str(
        "combLongGlyphExtHalfTok startLongPiTok combLongPiExtTok startLongGlyphTok combLongGlyphExtTok startRevLongGlyphTok ",
    );
    cont_body.append(lj.as_str());
    proof {
        assert(cont_body@ =~= spec_cont_body(*start_long));
    }
    let base_line = class_line(base_body.as_str());
    let cart_line = class_line(cart_body.as_str());
    let cont_line = class_line(cont_body.as_str());
    let mut s = String::from_str("ChainSub2: class \"'calt' CART AND CONT\" 4 4 4 2\n");
    append_sub_triple(&mut s, base_line.as_str(), cart_line.as_str(), cont_line.as_str());
    proof {
        assert(s@ =~= spec_chain_subs(*ctrl, *start_long, main_blocks@));
    }
    s
}

} // verus!
