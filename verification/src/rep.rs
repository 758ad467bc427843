//! A glyph's drawable representation: an outline program (spline set) plus
//! an ordered list of references to other glyphs.

use crate::encoding::{spec_encoding_gen_ref, Encoding};
use crate::strutil::{join_strings, spec_join};
use vstd::prelude::*;
use vstd::string::StrSliceExecFns;
use vstd::string::StringExecFns;

verus! {

/// A reference to another glyph: a copy of the target's encoding taken at
/// reference-creation time, plus a positional transform string.
pub struct Ref {
    pub ref_glyph: Encoding,
    pub position: String,
}

/// The reference clause for one reference.
pub open spec fn spec_ref_gen(r: Ref) -> Seq<char> {
    spec_encoding_gen_ref(r.ref_glyph, r.position@)
}

impl Ref {
    pub fn new(ref_glyph: Encoding, position: String) -> (r: Self)
        ensures
            r.ref_glyph == ref_glyph,
            r.position == position,
    {
        Self { ref_glyph, position }
    }

    /// Renders the reference clause.
    pub fn gen(&self) -> (r: String)
        ensures
            r@ == spec_ref_gen(*self),
    {
        self.ref_glyph.gen_ref(self.position.clone())
    }
}

/// A glyph representation: an outline program and a list of references.
/// A glyph with an empty outline but a non-empty reference list is a
/// composite glyph; one with neither is an empty spacer.
pub struct Rep {
    pub spline_set: String,
    pub references: Vec<Ref>,
}

/// The rendering of a representation: nothing at all when both parts are
/// empty, otherwise a foreground-layer marker, the reference clauses in
/// list order separated by newlines, and the outline program wrapped in
/// SplineSet markers when it is non-empty.  References come before the
/// outline.
pub open spec fn spec_rep_gen(rep: Rep) -> Seq<char> {
    let f: Seq<char> = if rep.spline_set@.len() > 0 || rep.references@.len() > 0 {
        "Fore\n"@
    } else {
        Seq::empty()
    };
    let r = spec_join(rep.references@.map_values(|rf: Ref| spec_ref_gen(rf)), "\n"@);
    let nl: Seq<char> = if rep.references@.len() > 0 {
        "\n"@
    } else {
        Seq::empty()
    };
    let s: Seq<char> = if rep.spline_set@.len() > 0 {
        "SplineSet"@ + rep.spline_set@ + "\nEndSplineSet\n"@
    } else {
        Seq::empty()
    };
    f + r + nl + s
}

impl Rep {
    pub fn new(spline_set: String, references: Vec<Ref>) -> (r: Self)
        ensures
            r.spline_set == spline_set,
            r.references == references,
    {
        Self { spline_set, references }
    }

    /// An empty representation: no outline, no references.
    pub fn empty() -> (r: Self)
        ensures
            r.spline_set@ == Seq::<char>::empty(),
            r.references@ == Seq::<Ref>::empty(),
    {
        Self { spline_set: String::new(), references: Vec::new() }
    }

    /// Renders the representation.
    pub fn gen(&self) -> (r: String)
        ensures
            r@ == spec_rep_gen(*self),
    {
        let mut s = String::new();
        if self.spline_set.as_str().unicode_len() > 0 || self.references.len() > 0 {
            s.append("Fore\n");
        }
        let mut pieces: Vec<String> = Vec::new();
        let mut i: usize = 0;
        while i < self.references.len()
            invariant
                i <= self.references@.len(),
                pieces@.len() == i,
                forall|j: int|
                    0 <= j < i ==> #[trigger] pieces@[j]@ == spec_ref_gen(self.references@[j]),
            decreases self.references@.len() - i,
        {
            let clause = self.references[i].gen();
            pieces.push(clause);
            i += 1;
        }
        proof {
            assert(pieces.deep_view() =~= self.references@.map_values(
                |rf: Ref| spec_ref_gen(rf),
            ));
        }
        let joined = join_strings(&pieces, "\n");
        s.append(joined.as_str());
        if self.references.len() > 0 {
            s.append("\n");
        }
        if self.spline_set.as_str().unicode_len() > 0 {
            s.append("SplineSet");
            s.append(self.spline_set.as_str());
            s.append("\nEndSplineSet\n");
        }
        proof {
            assert(s@ =~= spec_rep_gen(*self));
        }
        s
    }
}

/// A reference-only representation — empty outline, non-empty reference
/// list — renders as the foreground marker, every reference clause in list
/// order separated by newlines, and a final newline, with no outline
/// wrapper markers around it.
pub proof fn lemma_rep_ref_only_gen(rep: Rep)
    requires
        rep.spline_set@.len() == 0,
        rep.references@.len() > 0,
    ensures
        spec_rep_gen(rep) == "Fore\n"@ + spec_join(
            rep.references@.map_values(|rf: Ref| spec_ref_gen(rf)),
            "\n"@,
        ) + "\n"@,
{
    assert(spec_rep_gen(rep) =~= "Fore\n"@ + spec_join(
        rep.references@.map_values(|rf: Ref| spec_ref_gen(rf)),
        "\n"@,
    ) + "\n"@);
}

impl Default for Rep {
    /// The empty representation.
    fn default() -> (r: Self)
        ensures
            r.spline_set@ == Seq::<char>::empty(),
            r.references@ == Seq::<Ref>::empty(),
    {
        Rep::empty()
    }
}

} // verus!
