//! Extraction of documentation from attributes, parameters and generics, and
//! the rendering of the documentation block.
use vstd::prelude::*;

use crate::model::{doc_lines, is_doc, non_doc, Attribute, FnArg, GenericParam, RoxygenError};
use crate::{is_parameters_section, is_section};

verus! {

/// Removes the `#[doc]` attributes from `attrs` and returns their lines, in
/// order; the other attributes stay, in order.
pub fn extract_doc_attrs(attrs: &mut Vec<Attribute>) -> (r: Vec<String>)
    ensures
        r.deep_view() == doc_lines(old(attrs)@),
        final(attrs)@ == non_doc(old(attrs)@),
{
    let mut pending: Vec<Attribute> = Vec::new();
    std::mem::swap(attrs, &mut pending);
    let ghost orig = pending@;
    let mut docs: Vec<String> = Vec::new();
    let ghost mut i: int = 0;
    while pending.len() > 0
        invariant
            0 <= i <= orig.len(),
            pending@ == orig.skip(i),
            docs.deep_view() == doc_lines(orig.take(i)),
            attrs@ == non_doc(orig.take(i)),
        decreases pending.len(),
    {
        let a = pending.remove(0);
        proof {
            assert(orig.take(i + 1).drop_last() =~= orig.take(i));
            assert(orig.skip(i).remove(0) =~= orig.skip(i + 1));
        }
        match a {
            Attribute::Doc(t) => {
                docs.push(t);
            },
            other => {
                attrs.push(other);
            },
        }
        proof {
            assert(docs.deep_view() =~= doc_lines(orig.take(i + 1)));
        }
        proof {
            i = i + 1;
        }
    }
    proof {
        assert(orig.take(orig.len() as int) =~= orig);
    }
    docs
}

} // verus!

verus! {

/// The index of the first placement marker in `s`, or `s.len()` if there is none.
pub open spec fn first_section(s: Seq<Attribute>) -> int
    decreases s.len(),
{
    if s.len() == 0 {
        0
    } else {
        let k = first_section(s.drop_last());
        if k < s.len() - 1 {
            k
        } else if is_section(s.last()) {
            s.len() - 1
        } else {
            s.len() as int
        }
    }
}

/// Whether the placement marker appears more than once in `s`.
pub open spec fn has_duplicate_section(s: Seq<Attribute>) -> bool {
    let k = first_section(s);
    k < s.len() && first_section(s.skip(k + 1)) < s.len() - (k + 1)
}

/// The index of the second placement marker in `s`.
pub open spec fn second_section(s: Seq<Attribute>) -> int {
    let k = first_section(s);
    k + 1 + first_section(s.skip(k + 1))
}

/// The function's documentation before the marker.
pub open spec fn docs_before(s: Seq<Attribute>) -> Seq<Seq<char>> {
    doc_lines(s.take(first_section(s)))
}

/// The function's documentation after the marker; none without a marker.
pub open spec fn docs_after(s: Seq<Attribute>) -> Seq<Seq<char>> {
    let k = first_section(s);
    if k < s.len() {
        doc_lines(s.skip(k + 1))
    } else {
        seq![]
    }
}

/// The attributes of `s` that are neither documentation nor the marker.
pub open spec fn plain_attrs(s: Seq<Attribute>) -> Seq<Attribute>
    decreases s.len(),
{
    if s.len() == 0 {
        seq![]
    } else {
        let rest = plain_attrs(s.drop_last());
        if is_doc(s.last()) || is_section(s.last()) {
            rest
        } else {
            rest.push(s.last())
        }
    }
}

/// `first_section` is the first index that holds a marker.
pub proof fn lemma_first_section(s: Seq<Attribute>, k: int)
    requires
        0 <= k <= s.len(),
        forall|j: int| 0 <= j < k ==> !is_section(#[trigger] s[j]),
        k < s.len() ==> is_section(s[k]),
    ensures
        first_section(s) == k,
    decreases s.len(),
{
    if s.len() > 0 {
        let t = s.drop_last();
        if k < s.len() - 1 {
            lemma_first_section(t, k);
        } else {
            lemma_first_section(t, s.len() - 1);
        }
    }
}

/// Function documentation split by the placement marker. Without a marker
/// all of it is in `before_args_section`.
pub struct FunctionDocs {
    pub before_args_section: Vec<String>,
    pub after_args_section: Vec<String>,
}

/// Removes the function's own documentation and placement marker from
/// `attrs`, and returns the documentation split at the marker. A second
/// marker is an error, and then `attrs` is left as it was.
pub fn extract_fn_doc_attrs(attrs: &mut Vec<Attribute>) -> (r: Result<FunctionDocs, RoxygenError>)
    ensures
        r is Err <==> has_duplicate_section(old(attrs)@),
        r is Err ==> *final(attrs) == *old(attrs) && r->Err_0 == RoxygenError::DuplicateSection(
            old(attrs)@[second_section(old(attrs)@)]->handle,
        ),
        r matches Ok(d) ==> {
            &&& d.before_args_section.deep_view() == docs_before(old(attrs)@)
            &&& d.after_args_section.deep_view() == docs_after(old(attrs)@)
            &&& final(attrs)@ == plain_attrs(old(attrs)@)
        },
{
    let ghost s = attrs@;
    let mut before_args_section: Vec<String> = Vec::new();
    let mut after_args_section: Vec<String> = Vec::new();
    let mut idx: usize = 0;
    while idx < attrs.len() && !is_parameters_section(&attrs[idx])
        invariant
            attrs@ == s,
            idx <= s.len(),
            forall|j: int| 0 <= j < idx ==> !is_section(#[trigger] s[j]),
            before_args_section.deep_view() == doc_lines(s.take(idx as int)),
        decreases s.len() - idx,
    {
        proof {
            assert(s.take(idx + 1).drop_last() =~= s.take(idx as int));
        }
        if let Attribute::Doc(t) = &attrs[idx] {
            before_args_section.push(t.clone());
        }
        proof {
            assert(before_args_section.deep_view() =~= doc_lines(s.take(idx + 1)));
        }
        idx = idx + 1;
    }
    proof {
        lemma_first_section(s, idx as int);
    }
    let k = idx;
    if k < attrs.len() {
        idx = k + 1;
        while idx < attrs.len()
            invariant
                attrs@ == s,
                k < s.len(),
                first_section(s) == k,
                k < idx <= s.len(),
                forall|j: int| k < j < idx ==> !is_section(#[trigger] s[j]),
                after_args_section.deep_view() == doc_lines(s.subrange(k + 1, idx as int)),
            decreases s.len() - idx,
        {
            if is_parameters_section(&attrs[idx]) {
                proof {
                    let t = s.skip(k + 1);
                    lemma_first_section(t, idx - (k + 1));
                }
                return Err(RoxygenError::DuplicateSection(attrs[idx].handle()));
            }
            proof {
                assert(s.subrange(k + 1, idx + 1).drop_last() =~= s.subrange(k + 1, idx as int));
            }
            if let Attribute::Doc(t) = &attrs[idx] {
                after_args_section.push(t.clone());
            }
            proof {
                assert(after_args_section.deep_view() =~= doc_lines(s.subrange(k + 1, idx + 1)));
            }
            idx = idx + 1;
        }
        proof {
            let t = s.skip(k + 1);
            lemma_first_section(t, t.len() as int);
            assert(s.subrange(k + 1, s.len() as int) =~= t);
        }
    }
    retain_plain(attrs);
    Ok(FunctionDocs { before_args_section, after_args_section })
}

/// Removes the documentation and the placement markers from `attrs`.
fn retain_plain(attrs: &mut Vec<Attribute>)
    ensures
        final(attrs)@ == plain_attrs(old(attrs)@),
{
    let mut pending: Vec<Attribute> = Vec::new();
    std::mem::swap(attrs, &mut pending);
    let ghost orig = pending@;
    let ghost mut i: int = 0;
    while pending.len() > 0
        invariant
            0 <= i <= orig.len(),
            pending@ == orig.skip(i),
            attrs@ == plain_attrs(orig.take(i)),
        decreases pending.len(),
    {
        let a = pending.remove(0);
        proof {
            assert(orig.take(i + 1).drop_last() =~= orig.take(i));
            assert(orig.skip(i).remove(0) =~= orig.skip(i + 1));
        }
        let drop = is_parameters_section(&a);
        match a {
            Attribute::Doc(_) => {},
            other => {
                if !drop {
                    attrs.push(other);
                }
            },
        }
        proof {
            i = i + 1;
        }
    }
    proof {
        assert(orig.take(orig.len() as int) =~= orig);
    }
}

} // verus!

verus! {

/// A name with its documentation lines.
pub struct DocumentedIdent {
    pub ident: String,
    /// the documentation lines, never empty
    pub docs: Vec<String>,
}

impl View for DocumentedIdent {
    type V = (Seq<char>, Seq<Seq<char>>);

    open spec fn view(&self) -> (Seq<char>, Seq<Seq<char>>) {
        (self.ident@, self.docs.deep_view())
    }
}

impl DocumentedIdent {
    pub open spec fn wf(&self) -> bool {
        self.docs@.len() > 0
    }

    pub fn new(ident: String, docs: Vec<String>) -> (r: Self)
        requires
            docs@.len() > 0,
        ensures
            r.ident == ident,
            r.docs == docs,
            r.wf(),
    {
        DocumentedIdent { ident, docs }
    }
}

/// The views of a sequence of documented names.
pub open spec fn items_view(s: Seq<DocumentedIdent>) -> Seq<(Seq<char>, Seq<Seq<char>>)> {
    s.map_values(|d: DocumentedIdent| d@)
}

/// Whether each documented name carries documentation.
pub open spec fn all_wf(s: Seq<DocumentedIdent>) -> bool {
    forall|i: int| 0 <= i < s.len() ==> (#[trigger] s[i]).wf()
}

/// The documented parameters of `s` with their documentation, in order.
pub open spec fn documented_params(s: Seq<FnArg>) -> Seq<(Seq<char>, Seq<Seq<char>>)>
    decreases s.len(),
{
    if s.len() == 0 {
        seq![]
    } else {
        let rest = documented_params(s.drop_last());
        match s.last() {
            FnArg::Typed(p) => if doc_lines(p.attrs@).len() > 0 {
                rest.push((p.ident@, doc_lines(p.attrs@)))
            } else {
                rest
            },
            FnArg::Receiver => rest,
        }
    }
}

/// `after` is `before` with the documentation taken off.
pub open spec fn arg_stripped(before: FnArg, after: FnArg) -> bool {
    match (before, after) {
        (FnArg::Receiver, FnArg::Receiver) => true,
        (FnArg::Typed(p), FnArg::Typed(q)) => p.ident == q.ident && q.attrs@ == non_doc(p.attrs@),
        _ => false,
    }
}

/// Each parameter of `after` is the one of `before` without documentation.
pub open spec fn args_stripped(before: Seq<FnArg>, after: Seq<FnArg>) -> bool {
    &&& before.len() == after.len()
    &&& forall|i: int| 0 <= i < before.len() ==> arg_stripped(#[trigger] before[i], after[i])
}

/// Takes the documentation off the parameters and returns it for those that
/// had some, in declaration order. Receivers are skipped.
pub fn extract_documented_parameters(args: &mut Vec<FnArg>) -> (r: Vec<DocumentedIdent>)
    ensures
        items_view(r@) == documented_params(old(args)@),
        all_wf(r@),
        args_stripped(old(args)@, final(args)@),
{
    let mut pending: Vec<FnArg> = Vec::new();
    std::mem::swap(args, &mut pending);
    let ghost orig = pending@;
    let ghost mut i: int = 0;
    let mut documented: Vec<DocumentedIdent> = Vec::new();
    while pending.len() > 0
        invariant
            0 <= i <= orig.len(),
            pending@ == orig.skip(i),
            items_view(documented@) == documented_params(orig.take(i)),
            all_wf(documented@),
            args_stripped(orig.take(i), args@),
        decreases pending.len(),
    {
        let arg = pending.remove(0);
        proof {
            assert(orig.take(i + 1).drop_last() =~= orig.take(i));
            assert(orig.skip(i).remove(0) =~= orig.skip(i + 1));
        }
        match arg {
            FnArg::Typed(mut p) => {
                let docs = extract_doc_attrs(&mut p.attrs);
                if docs.len() > 0 {
                    documented.push(DocumentedIdent::new(p.ident.clone(), docs));
                }
                args.push(FnArg::Typed(p));
            },
            FnArg::Receiver => {
                args.push(FnArg::Receiver);
            },
        }
        proof {
            assert(items_view(documented@) =~= documented_params(orig.take(i + 1)));
            assert(arg_stripped(orig.take(i + 1)[i], args@[i]));
            i = i + 1;
        }
    }
    proof {
        assert(orig.take(orig.len() as int) =~= orig);
    }
    documented
}

/// The documented generic parameters of `s` with their documentation, in order.
pub open spec fn documented_generics(s: Seq<GenericParam>) -> Seq<(Seq<char>, Seq<Seq<char>>)>
    decreases s.len(),
{
    if s.len() == 0 {
        seq![]
    } else {
        let rest = documented_generics(s.drop_last());
        let d = doc_lines(s.last().attrs@);
        if d.len() > 0 {
            rest.push((s.last().ident@, d))
        } else {
            rest
        }
    }
}

/// Each generic parameter of `after` is the one of `before` without documentation.
pub open spec fn generics_stripped(before: Seq<GenericParam>, after: Seq<GenericParam>) -> bool {
    &&& before.len() == after.len()
    &&& forall|i: int|
        0 <= i < before.len() ==> (#[trigger] after[i]).ident == before[i].ident
            && after[i].attrs@ == non_doc(before[i].attrs@)
}

/// Takes the documentation off the generic parameters and returns it for
/// those that had some, in declaration order.
pub fn extract_documented_generics(generics: &mut Vec<GenericParam>) -> (r: Vec<DocumentedIdent>)
    ensures
        items_view(r@) == documented_generics(old(generics)@),
        all_wf(r@),
        generics_stripped(old(generics)@, final(generics)@),
{
    let mut pending: Vec<GenericParam> = Vec::new();
    std::mem::swap(generics, &mut pending);
    let ghost orig = pending@;
    let ghost mut i: int = 0;
    let mut documented: Vec<DocumentedIdent> = Vec::new();
    while pending.len() > 0
        invariant
            0 <= i <= orig.len(),
            pending@ == orig.skip(i),
            items_view(documented@) == documented_generics(orig.take(i)),
            all_wf(documented@),
            generics_stripped(orig.take(i), generics@),
        decreases pending.len(),
    {
        let mut param = pending.remove(0);
        proof {
            assert(orig.take(i + 1).drop_last() =~= orig.take(i));
            assert(orig.skip(i).remove(0) =~= orig.skip(i + 1));
        }
        let docs = extract_doc_attrs(&mut param.attrs);
        if docs.len() > 0 {
            documented.push(DocumentedIdent::new(param.ident.clone(), docs));
        }
        generics.push(param);
        proof {
            assert(items_view(documented@) =~= documented_generics(orig.take(i + 1)));
            i = i + 1;
        }
    }
    proof {
        assert(orig.take(orig.len() as int) =~= orig);
    }
    documented
}

} // verus!

verus! {

/// Prepends `prepend_text` to a line of documentation.
pub fn prepend_to_doc_attribute(prepend_text: &str, doc: &str) -> (r: String)
    ensures
        r@ == prepend_text@ + doc@,
{
    let mut line = prepend_text.to_owned();
    line.append(doc);
    line
}

/// The list entry of one documented name: `* `name`:` before its first
/// line, the other lines indented below it.
pub open spec fn entry_lines(item: (Seq<char>, Seq<Seq<char>>)) -> Seq<Seq<char>> {
    seq![" * `"@ + item.0 + "`:"@ + item.1[0]] + item.1.skip(1).map_values(
        |l: Seq<char>| "   "@ + l,
    )
}

/// The list entries of `items`, in order.
pub open spec fn entries(items: Seq<(Seq<char>, Seq<Seq<char>>)>) -> Seq<Seq<char>>
    decreases items.len(),
{
    if items.len() == 0 {
        seq![]
    } else {
        entries(items.drop_last()) + entry_lines(items.last())
    }
}

/// The block for `items` under `caption`: a blank line, the caption in bold,
/// a blank line and the entries. No block at all when `items` is empty.
pub open spec fn block_lines(caption: Seq<char>, items: Seq<(Seq<char>, Seq<Seq<char>>)>) -> Option<
    Seq<Seq<char>>,
> {
    if items.len() == 0 {
        None
    } else {
        Some(seq![seq![], " **"@ + caption + "**:"@, seq![]] + entries(items))
    }
}

/// Appends the list entry of `item` to `lines`.
fn push_entry(item: &DocumentedIdent, lines: &mut Vec<String>)
    requires
        item.wf(),
    ensures
        final(lines).deep_view() == old(lines).deep_view() + entry_lines(item@),
{
    let ghost start = lines.deep_view();
    let ghost d = item.docs.deep_view();
    let mut head = " * `".to_owned();
    head.append(item.ident.as_str());
    head.append("`:");
    lines.push(prepend_to_doc_attribute(head.as_str(), item.docs[0].as_str()));
    assert(d[0] == item.docs@[0]@);
    assert(lines.deep_view() =~= start + seq![" * `"@ + item.ident@ + "`:"@ + d[0]]);
    let mut j: usize = 1;
    while j < item.docs.len()
        invariant
            item.wf(),
            d == item.docs.deep_view(),
            1 <= j <= d.len(),
            lines.deep_view() == start + seq![" * `"@ + item.ident@ + "`:"@ + d[0]] + d.subrange(
                1,
                j as int,
            ).map_values(|l: Seq<char>| "   "@ + l),
        decreases d.len() - j,
    {
        let ghost prev = lines.deep_view();
        lines.push(prepend_to_doc_attribute("   ", item.docs[j].as_str()));
        proof {
            assert(d[j as int] == item.docs@[j as int]@);
            assert(lines.deep_view() =~= prev.push("   "@ + d[j as int]));
            assert(d.subrange(1, j + 1).map_values(|l: Seq<char>| "   "@ + l) =~= d.subrange(
                1,
                j as int,
            ).map_values(|l: Seq<char>| "   "@ + l).push("   "@ + d[j as int]));
        }
        j = j + 1;
    }
    proof {
        assert(d.subrange(1, d.len() as int) =~= d.skip(1));
        assert(lines.deep_view() =~= start + entry_lines(item@));
    }
}

/// Renders the documentation block for `documented_idents` under `caption`,
/// or nothing when there is nothing documented.
pub fn make_doc_block(caption: &str, documented_idents: Vec<DocumentedIdent>) -> (r: Option<
    Vec<String>,
>)
    requires
        all_wf(documented_idents@),
    ensures
        opt_lines(r) == block_lines(caption@, items_view(documented_idents@)),
{
    if documented_idents.len() == 0 {
        return None;
    }
    let mut lines: Vec<String> = Vec::new();
    lines.push(String::new());
    lines.push(prepend_to_doc_attribute(prepend_to_doc_attribute(" **", caption).as_str(), "**:"));
    lines.push(String::new());
    let ghost header = lines.deep_view();
    let ghost items = items_view(documented_idents@);
    assert(header =~= seq![seq![], " **"@ + caption@ + "**:"@, seq![]]);
    let mut i: usize = 0;
    while i < documented_idents.len()
        invariant
            all_wf(documented_idents@),
            items == items_view(documented_idents@),
            i <= items.len(),
            lines.deep_view() == header + entries(items.take(i as int)),
        decreases items.len() - i,
    {
        push_entry(&documented_idents[i], &mut lines);
        proof {
            assert(items.take(i + 1).drop_last() =~= items.take(i as int));
            assert(lines.deep_view() =~= header + entries(items.take(i + 1)));
        }
        i = i + 1;
    }
    proof {
        assert(items.take(items.len() as int) =~= items);
    }
    Some(lines)
}

pub open spec fn opt_lines(o: Option<Vec<String>>) -> Option<Seq<Seq<char>>> {
    match o {
        Some(v) => Some(v.deep_view()),
        None => None,
    }
}

} // verus!
