//! A glyph's dual position: its font-internal index and its external
//! encoding position, with the textual clauses derived from them.

use crate::strutil::{dec_nat, spec_dec_nat};
use vstd::prelude::*;
use vstd::string::StrSliceExecFns;
use vstd::string::StringExecFns;

verus! {

/// An external encoding position: either a concrete code point, or
/// unencoded, which renders as the sentinel "-1".
#[derive(Clone, Copy)]
pub enum EncPos {
    Pos(usize),
    Unencoded,
}

/// `e` with a concrete position advanced by one; unencoded stays unencoded.
pub open spec fn spec_enc_pos_inc(e: EncPos) -> EncPos {
    match e {
        EncPos::Pos(p) => EncPos::Pos((p + 1) as usize),
        EncPos::Unencoded => EncPos::Unencoded,
    }
}

/// `e` advanced `k` times.
pub open spec fn spec_enc_pos_plus(e: EncPos, k: nat) -> EncPos {
    match e {
        EncPos::Pos(p) => EncPos::Pos((p + k) as usize),
        EncPos::Unencoded => EncPos::Unencoded,
    }
}

/// The textual rendering of an encoding position: the decimal value of a
/// concrete position, and the literal "-1" for an unencoded one.
pub open spec fn spec_enc_pos_gen(e: EncPos) -> Seq<char> {
    match e {
        EncPos::Pos(p) => spec_dec_nat(p as nat),
        EncPos::Unencoded => "-1"@,
    }
}

impl EncPos {
    /// Advances a concrete position by one; a no-op on unencoded.
    pub fn inc(&mut self)
        requires
            *old(self) matches EncPos::Pos(p) ==> p < usize::MAX,
        ensures
            *final(self) == spec_enc_pos_inc(*old(self)),
    {
        match self {
            EncPos::Pos(p) => {
                *p = *p + 1;
            },
            EncPos::Unencoded => {},
        }
    }

    /// Renders the position: decimal for a concrete value, "-1" otherwise.
    pub fn gen(&self) -> (r: String)
        ensures
            r@ == spec_enc_pos_gen(*self),
    {
        match self {
            EncPos::Pos(p) => dec_nat(*p),
            EncPos::Unencoded => String::from_str("-1"),
        }
    }
}

/// A glyph's full encoding: the font-internal position and the external
/// encoding position.
#[derive(Clone, Copy)]
pub struct Encoding {
    pub ff_pos: usize,
    pub enc_pos: EncPos,
}

/// The encoding clause: `Encoding: <internal> <external> <internal>` — the
/// internal position is repeated, as the document format requires.
pub open spec fn spec_encoding_gen(e: Encoding) -> Seq<char> {
    "Encoding: "@ + spec_dec_nat(e.ff_pos as nat) + " "@ + spec_enc_pos_gen(e.enc_pos) + " "@
        + spec_dec_nat(e.ff_pos as nat)
}

/// A reference clause: `Refer: <internal> <external> <transform>`.
pub open spec fn spec_encoding_gen_ref(e: Encoding, position: Seq<char>) -> Seq<char> {
    "Refer: "@ + spec_dec_nat(e.ff_pos as nat) + " "@ + spec_enc_pos_gen(e.enc_pos) + " "@
        + position
}

impl Encoding {
    pub fn new(ff_pos: usize, enc_pos: EncPos) -> (r: Self)
        ensures
            r.ff_pos == ff_pos,
            r.enc_pos == enc_pos,
    {
        Self { ff_pos, enc_pos }
    }

    /// Renders the encoding clause for this glyph.
    pub fn gen(&self) -> (r: String)
        ensures
            r@ == spec_encoding_gen(*self),
    {
        let mut s = String::from_str("Encoding: ");
        let internal = dec_nat(self.ff_pos);
        let external = self.enc_pos.gen();
        s.append(internal.as_str());
        s.append(" ");
        s.append(external.as_str());
        s.append(" ");
        s.append(internal.as_str());
        proof {
            assert(s@ =~= spec_encoding_gen(*self));
        }
        s
    }

    /// Renders a reference clause pointing at this glyph, with the given
    /// positional transform.
    pub fn gen_ref(&self, position: String) -> (r: String)
        ensures
            r@ == spec_encoding_gen_ref(*self, position@),
    {
        let mut s = String::from_str("Refer: ");
        let internal = dec_nat(self.ff_pos);
        let external = self.enc_pos.gen();
        s.append(internal.as_str());
        s.append(" ");
        s.append(external.as_str());
        s.append(" ");
        s.append(position.as_str());
        proof {
            assert(s@ =~= spec_encoding_gen_ref(*self, position@));
        }
        s
    }
}

} // verus!
