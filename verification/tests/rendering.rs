use font_forge_tool::anchor::{Anchor, AnchorType};
use font_forge_tool::encoding::{EncPos, Encoding};
use font_forge_tool::rep::{Ref, Rep};

#[test]
fn enc_pos_unencoded_renders_sentinel() {
    let e = EncPos::Unencoded;
    assert_eq!(e.gen(), "-1");
}

#[test]
fn enc_pos_concrete_renders_decimal() {
    assert_eq!(EncPos::Pos(0).gen(), "0");
    assert_eq!(EncPos::Pos(7).gen(), "7");
    assert_eq!(EncPos::Pos(987654).gen(), "987654");
    assert_eq!(EncPos::Pos(0xF1990).gen(), "989584");
}

#[test]
fn enc_pos_advance_increments_concrete() {
    let mut e = EncPos::Pos(41);
    e.inc();
    assert_eq!(e.gen(), "42");
}

#[test]
fn enc_pos_advance_is_noop_on_unencoded() {
    let mut e = EncPos::Unencoded;
    e.inc();
    assert_eq!(e.gen(), "-1");
}

#[test]
fn encoding_clause_repeats_internal_position() {
    let e = Encoding::new(5, EncPos::Pos(10));
    assert_eq!(e.gen(), "Encoding: 5 10 5");
    let u = Encoding::new(33, EncPos::Unencoded);
    assert_eq!(u.gen(), "Encoding: 33 -1 33");
}

#[test]
fn reference_clause_uses_external_position() {
    let e = Encoding::new(34, EncPos::Pos(0xF1990));
    assert_eq!(
        e.gen_ref("N 1 0 0 1 0 0 2".to_string()),
        "Refer: 34 989584 N 1 0 0 1 0 0 2"
    );
}

#[test]
fn reference_only_representation_has_no_outline_markers() {
    let r1 = Ref::new(Encoding::new(3, EncPos::Pos(65)), "N 1 0 0 1 0 0 2".to_string());
    let r2 = Ref::new(Encoding::new(4, EncPos::Unencoded), "S 1 0 0 1 -1000 500 2".to_string());
    let rep = Rep::new(String::new(), vec![r1, r2]);
    let out = rep.gen();
    assert_eq!(
        out,
        "Fore\nRefer: 3 65 N 1 0 0 1 0 0 2\nRefer: 4 -1 S 1 0 0 1 -1000 500 2\n"
    );
    assert!(!out.contains("SplineSet"));
}

#[test]
fn empty_representation_renders_nothing() {
    let rep = Rep::new(String::new(), vec![]);
    assert_eq!(rep.gen(), "");
}

#[test]
fn outline_only_representation_is_wrapped() {
    let rep = Rep::new("\n0 0 m 0".to_string(), vec![]);
    assert_eq!(rep.gen(), "Fore\nSplineSet\n0 0 m 0\nEndSplineSet\n");
}

#[test]
fn outline_follows_references() {
    let r = Ref::new(Encoding::new(1, EncPos::Pos(2)), "T".to_string());
    let rep = Rep::new("s".to_string(), vec![r]);
    assert_eq!(rep.gen(), "Fore\nRefer: 1 2 T\nSplineSets\nEndSplineSet\n");
}

#[test]
fn stack_anchor_positions_depend_on_role() {
    let base = Anchor::new_stack(AnchorType::Base);
    assert_eq!(base.gen(), "AnchorPoint: \"stack\" 500 400 basechar 0\n");
    let mark = Anchor::new_stack(AnchorType::Mark);
    assert_eq!(mark.gen(), "AnchorPoint: \"stack\" -500 400 mark 0\n");
}

#[test]
fn scale_anchor_uses_explicit_position() {
    let a = Anchor::new_scale(AnchorType::Mark, (-3, 7));
    assert_eq!(a.gen(), "AnchorPoint: \"scale\" -3 7 mark 0\n");
}
