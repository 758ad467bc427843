//! Mark-attachment anchors: a class (stack or scale), a role (base or
//! mark), and a position.

use crate::strutil::{dec_int, spec_dec_int};
use vstd::prelude::*;
use vstd::string::StringExecFns;

verus! {

/// An anchor class: stack (vertical combining) or scale (scaled combining).
#[derive(Clone, Copy)]
pub enum AnchorClass {
    Stack,
    Scale,
}

/// An anchor role: base (for lower/outer glyphs) or mark (for upper/inner
/// glyphs).
#[derive(Clone, Copy)]
pub enum AnchorType {
    Base,
    Mark,
}

/// An anchor: class, role, and position.
#[derive(Clone, Copy)]
pub struct Anchor {
    pub class: AnchorClass,
    pub ty: AnchorType,
    pub pos: (isize, isize),
}

/// The default stack-class x position: +500 for a base, -500 for a mark.
pub open spec fn spec_stack_x(ty: AnchorType) -> int {
    match ty {
        AnchorType::Base => 500,
        AnchorType::Mark => -500,
    }
}

/// The anchor clause:
/// `AnchorPoint: "<class>" <x> <y> <role> 0`.
pub open spec fn spec_anchor_gen(a: Anchor) -> Seq<char> {
    let class: Seq<char> = match a.class {
        AnchorClass::Stack => "stack"@,
        AnchorClass::Scale => "scale"@,
    };
    let ty: Seq<char> = match a.ty {
        AnchorType::Base => "basechar"@,
        AnchorType::Mark => "mark"@,
    };
    "AnchorPoint: \""@ + class + "\" "@ + spec_dec_int(a.pos.0 as int) + " "@ + spec_dec_int(
        a.pos.1 as int,
    ) + " "@ + ty + " 0\n"@
}

impl Anchor {
    /// A stack-class anchor at the role-dependent default position
    /// (x = +500 for a base, -500 for a mark; y = 400).
    pub fn new_stack(ty: AnchorType) -> (r: Self)
        ensures
            r.class is Stack,
            r.ty == ty,
            r.pos.0 == spec_stack_x(ty),
            r.pos.1 == 400,
    {
        Self {
            class: AnchorClass::Stack,
            ty,
            pos: (
                match ty {
                    AnchorType::Base => 500,
                    AnchorType::Mark => -500,
                },
                400,
            ),
        }
    }

    /// A scale-class anchor at an explicit position.
    pub fn new_scale(ty: AnchorType, pos: (isize, isize)) -> (r: Self)
        ensures
            r.class is Scale,
            r.ty == ty,
            r.pos == pos,
    {
        Self { class: AnchorClass::Scale, ty, pos }
    }

    /// Renders the anchor clause.
    pub fn gen(&self) -> (r: String)
        requires
            self.pos.0 != isize::MIN,
            self.pos.1 != isize::MIN,
        ensures
            r@ == spec_anchor_gen(*self),
    {
        let mut s = String::from_str("AnchorPoint: \"");
        match self.class {
            AnchorClass::Stack => s.append("stack"),
            AnchorClass::Scale => s.append("scale"),
        }
        s.append("\" ");
        let x = dec_int(self.pos.0);
        s.append(x.as_str());
        s.append(" ");
        let y = dec_int(self.pos.1);
        s.append(y.as_str());
        s.append(" ");
        match self.ty {
            AnchorType::Base => s.append("basechar"),
            AnchorType::Mark => s.append("mark"),
        }
        s.append(" 0\n");
        proof {
            assert(s@ =~= spec_anchor_gen(*self));
        }
        s
    }
}

} // verus!
