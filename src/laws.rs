//! Properties of the transformation as a whole.
use vstd::prelude::*;

use crate::model::{doc_lines, is_doc, non_doc, Attribute, FnArg, GenericParam, ItemFn, PatType};
use crate::shift::{
    docs_of, is_escaped, lemma_split_at, shift_docs0, shift_items, shifted, typed,
};
use crate::util::{
    block_lines, docs_after, docs_before, documented_generics, documented_params,
    first_section, has_duplicate_section, plain_attrs,
};
use crate::{argdocpos_lines, is_section, opt_seq, roxygen_lines, separator};

verus! {

/// Whether a parameter carries documentation.
pub open spec fn has_docs(p: PatType) -> bool {
    doc_lines(p.attrs@).len() > 0
}

/// Whether a generic parameter carries documentation.
pub open spec fn generic_has_docs(g: GenericParam) -> bool {
    doc_lines(g.attrs@).len() > 0
}

/// The entry of a parameter.
pub open spec fn param_entry(p: PatType) -> (Seq<char>, Seq<Seq<char>>) {
    (p.ident@, doc_lines(p.attrs@))
}

/// The entry of a generic parameter.
pub open spec fn generic_entry(g: GenericParam) -> (Seq<char>, Seq<Seq<char>>) {
    (g.ident@, doc_lines(g.attrs@))
}

/// The documented parameters are the typed parameters that carry
/// documentation, kept in declaration order.
pub proof fn law_params_in_declaration_order(s: Seq<FnArg>)
    ensures
        documented_params(s) == typed(s).filter(|p: PatType| has_docs(p)).map_values(
            |p: PatType| param_entry(p),
        ),
    decreases s.len(),
{
    if s.len() > 0 {
        reveal(Seq::filter);
        law_params_in_declaration_order(s.drop_last());
        let t = typed(s);
        match s.last() {
            FnArg::Typed(p) => {
                assert(t.drop_last() =~= typed(s.drop_last()));
                assert(t.last() == p);
            },
            FnArg::Receiver => {},
        }
        let f = t.filter(|p: PatType| has_docs(p));
        assert(documented_params(s) =~= f.map_values(|p: PatType| param_entry(p)));
    }
}

/// The documented generic parameters are those that carry documentation,
/// kept in declaration order.
pub proof fn law_generics_in_declaration_order(s: Seq<GenericParam>)
    ensures
        documented_generics(s) == s.filter(|g: GenericParam| generic_has_docs(g)).map_values(
            |g: GenericParam| generic_entry(g),
        ),
    decreases s.len(),
{
    if s.len() > 0 {
        reveal(Seq::filter);
        law_generics_in_declaration_order(s.drop_last());
        let f = s.filter(|g: GenericParam| generic_has_docs(g));
        assert(documented_generics(s) =~= f.map_values(|g: GenericParam| generic_entry(g)));
    }
}

/// The attributes left on the function are exactly those that are neither
/// documentation nor the placement marker, unchanged and in their order;
/// those left on a parameter or generic parameter are exactly those that are
/// not documentation.
pub proof fn law_other_attributes_kept(s: Seq<Attribute>)
    ensures
        plain_attrs(s) == s.filter(|a: Attribute| !is_doc(a) && !is_section(a)),
        non_doc(s) == s.filter(|a: Attribute| !is_doc(a)),
    decreases s.len(),
{
    if s.len() > 0 {
        reveal(Seq::filter);
        law_other_attributes_kept(s.drop_last());
        assert(plain_attrs(s) =~= s.filter(|a: Attribute| !is_doc(a) && !is_section(a)));
        assert(non_doc(s) =~= s.filter(|a: Attribute| !is_doc(a)));
    }
}

/// With no documented generic parameter there is no generics block at all.
pub proof fn law_no_generics_block(f: ItemFn)
    requires
        documented_generics(f.generics@).len() == 0,
    ensures
        block_lines("Generics"@, documented_generics(f.generics@)) is None,
        roxygen_lines(f) == docs_before(f.attrs@) + opt_seq(
            block_lines("Parameters"@, documented_params(f.inputs@)),
        ) + separator(docs_after(f.attrs@)) + docs_after(f.attrs@),
{
    assert(opt_seq(block_lines("Generics"@, documented_generics(f.generics@))) =~= seq![]);
    let b = docs_before(f.attrs@) + opt_seq(
        block_lines("Parameters"@, documented_params(f.inputs@)),
    );
    assert(b + Seq::<Seq<char>>::empty() =~= b);
}

/// Without a placement marker all of the function's documentation comes
/// before the blocks, and nothing follows them; in the shift-up variant that
/// includes what the first parameter gives the function.
pub proof fn law_marker_default(f: ItemFn)
    requires
        forall|i: int| 0 <= i < f.attrs@.len() ==> !is_section(#[trigger] f.attrs@[i]),
    ensures
        roxygen_lines(f) == doc_lines(f.attrs@) + opt_seq(
            block_lines("Parameters"@, documented_params(f.inputs@)),
        ) + opt_seq(block_lines("Generics"@, documented_generics(f.generics@))),
        argdocpos_lines(f) == doc_lines(f.attrs@) + opt_seq(shift_docs0(typed(f.inputs@)))
            + opt_seq(block_lines("Parameters"@, shift_items(typed(f.inputs@)))),
{
    let s = f.attrs@;
    crate::util::lemma_first_section(s, s.len() as int);
    assert(s.take(s.len() as int) =~= s);
    let b = doc_lines(s) + opt_seq(block_lines("Parameters"@, documented_params(f.inputs@)))
        + opt_seq(block_lines("Generics"@, documented_generics(f.generics@)));
    assert(b + Seq::<Seq<char>>::empty() + Seq::<Seq<char>>::empty() =~= b);
    let c = doc_lines(s) + opt_seq(shift_docs0(typed(f.inputs@))) + opt_seq(
        block_lines("Parameters"@, shift_items(typed(f.inputs@))),
    );
    assert(c + Seq::<Seq<char>>::empty() + Seq::<Seq<char>>::empty() =~= c);
}

/// A single parameter whose documentation holds no escaped line gives all of
/// it to the function, and none to the parameter.
pub proof fn law_single_parameter_shift(s: Seq<FnArg>)
    requires
        typed(s).len() == 1,
        docs_of(typed(s), 0).len() > 0,
        forall|j: int|
            0 <= j < docs_of(typed(s), 0).len() ==> !is_escaped(#[trigger] docs_of(typed(s), 0)[j]),
    ensures
        shift_docs0(typed(s)) == Some(docs_of(typed(s), 0)),
        shift_items(typed(s)) == Seq::<(Seq<char>, Seq<Seq<char>>)>::empty(),
{
    let t = typed(s);
    let d = docs_of(t, 0);
    lemma_split_at(d, d.len() as int);
    assert(d.take(d.len() as int) =~= d);
    assert(shift_items(t) =~= Seq::<(Seq<char>, Seq<Seq<char>>)>::empty());
}

/// A last parameter documented by a plain line and then an escaped line:
/// the plain line goes to the parameter before it, the escaped line without
/// its marker to the last parameter.
pub proof fn law_escape_split(s: Seq<FnArg>)
    requires
        typed(s).len() >= 2,
        docs_of(typed(s), typed(s).len() - 1).len() == 2,
        !is_escaped(docs_of(typed(s), typed(s).len() - 1)[0]),
        is_escaped(docs_of(typed(s), typed(s).len() - 1)[1]),
    ensures
        ({
            let t = typed(s);
            let n = t.len() as int;
            let d = docs_of(t, n - 1);
            shift_items(t) == shifted(t, n - 1) + seq![
                (t[n - 2].ident@, seq![d[0]]),
                (t[n - 1].ident@, seq![d[1].skip(1)]),
            ]
        }),
{
    let t = typed(s);
    let n = t.len() as int;
    let d = docs_of(t, n - 1);
    lemma_split_at(d, 1);
    assert(d.take(1) =~= seq![d[0]]);
    assert(seq![d[1].skip(1)] + d.skip(2) =~= seq![d[1].skip(1)]);
    assert(shift_items(t) =~= shifted(t, n - 1) + seq![
        (t[n - 2].ident@, seq![d[0]]),
        (t[n - 1].ident@, seq![d[1].skip(1)]),
    ]);
}

/// What `first_section` is: no marker before it, and a marker at it unless
/// it is the length.
pub proof fn lemma_first_section_props(s: Seq<Attribute>)
    ensures
        0 <= first_section(s) <= s.len(),
        forall|j: int| 0 <= j < first_section(s) ==> !is_section(#[trigger] s[j]),
        first_section(s) < s.len() ==> is_section(s[first_section(s)]),
    decreases s.len(),
{
    if s.len() > 0 {
        let r = s.drop_last();
        lemma_first_section_props(r);
        assert forall|j: int| 0 <= j < first_section(s) implies !is_section(#[trigger] s[j]) by {
            if j < r.len() {
                assert(s[j] == r[j]);
            }
        }
    }
}

/// A function with the placement marker at two places is refused as a
/// duplicate.
pub proof fn law_two_markers_duplicate(s: Seq<Attribute>, i: int, j: int)
    requires
        0 <= i < j < s.len(),
        is_section(s[i]),
        is_section(s[j]),
    ensures
        has_duplicate_section(s),
{
    lemma_first_section_props(s);
    let k = first_section(s);
    let t = s.skip(k + 1);
    lemma_first_section_props(t);
    assert(t[j - (k + 1)] == s[j]);
}

} // verus!
