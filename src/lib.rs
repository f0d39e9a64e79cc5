//! Gathers the documentation written on a function's parameters and generic
//! parameters into one structured block of the function's own documentation.
use vstd::prelude::*;

pub mod laws;
pub mod model;
pub mod shift;
pub mod util;

use crate::model::{Attribute, ItemFn, RoxygenError};
use crate::shift::{extract_documented_parameters_shift_up, shift_docs0, shift_items, typed};
use crate::util::{
    args_stripped, block_lines, docs_after, docs_before, documented_generics, documented_params,
    extract_documented_generics, extract_documented_parameters, extract_fn_doc_attrs,
    first_section, generics_stripped, has_duplicate_section, lemma_first_section, make_doc_block,
    plain_attrs, second_section,
};

verus! {

/// The name of the attribute that marks where the block goes.
pub const PARAM_SECTION: &'static str = "parameters_section";

/// The name of this crate, and of its main attribute.
pub const ROXYGEN_CRATE: &'static str = "roxygen";

/// `parameters_section`, alone or as `roxygen::parameters_section`.
pub open spec fn is_section_path(p: Seq<String>) -> bool {
    ||| p.len() == 1 && p[0]@ == PARAM_SECTION@
    ||| p.len() == 2 && p[0]@ == ROXYGEN_CRATE@ && p[1]@ == PARAM_SECTION@
}

/// The placement marker.
pub open spec fn is_section(a: Attribute) -> bool {
    a matches Attribute::Other { path, .. } && is_section_path(path@)
}

/// The main attribute, `roxygen`.
pub open spec fn is_main(a: Attribute) -> bool {
    a matches Attribute::Other { path, .. } && path@.len() == 1 && path@[0]@ == ROXYGEN_CRATE@
}

/// Whether a path segment is `name`.
fn segment_is(segment: &String, name: &str) -> (r: bool)
    ensures
        r == (segment@ == name@),
{
    let n = name.to_owned();
    *segment == n
}

/// Whether an attribute is the placement marker.
pub fn is_parameters_section(attr: &Attribute) -> (r: bool)
    ensures
        r == is_section(*attr),
{
    match attr {
        Attribute::Doc(_) => false,
        Attribute::Other { path, .. } => {
            if path.len() == 1 {
                segment_is(&path[0], PARAM_SECTION)
            } else if path.len() == 2 {
                segment_is(&path[0], ROXYGEN_CRATE) && segment_is(&path[1], PARAM_SECTION)
            } else {
                false
            }
        },
    }
}

/// Whether an attribute is the main attribute `roxygen`.
pub fn is_roxygen_main(attr: &Attribute) -> (r: bool)
    ensures
        r == is_main(*attr),
{
    match attr {
        Attribute::Doc(_) => false,
        Attribute::Other { path, .. } => path.len() == 1 && segment_is(&path[0], ROXYGEN_CRATE),
    }
}

/// The index of the first main attribute in `s`, or `s.len()` if there is none.
pub open spec fn first_main(s: Seq<Attribute>) -> int
    decreases s.len(),
{
    if s.len() == 0 {
        0
    } else {
        let k = first_main(s.drop_last());
        if k < s.len() - 1 {
            k
        } else if is_main(s.last()) {
            s.len() - 1
        } else {
            s.len() as int
        }
    }
}

/// `first_main` is the first index that holds a main attribute.
pub proof fn lemma_first_main(s: Seq<Attribute>, k: int)
    requires
        0 <= k <= s.len(),
        forall|j: int| 0 <= j < k ==> !is_main(#[trigger] s[j]),
        k < s.len() ==> is_main(s[k]),
    ensures
        first_main(s) == k,
    decreases s.len(),
{
    if s.len() > 0 {
        if k < s.len() - 1 {
            lemma_first_main(s.drop_last(), k);
        } else {
            lemma_first_main(s.drop_last(), s.len() - 1);
        }
    }
}

/// The index of the first main attribute in `attrs`, or its length.
fn find_main(attrs: &Vec<Attribute>) -> (k: usize)
    ensures
        k == first_main(attrs@),
        k < attrs@.len() ==> is_main(attrs@[k as int]),
{
    let mut k: usize = 0;
    while k < attrs.len() && !is_roxygen_main(&attrs[k])
        invariant
            k <= attrs@.len(),
            forall|j: int| 0 <= j < k ==> !is_main(#[trigger] attrs@[j]),
        decreases attrs@.len() - k,
    {
        k = k + 1;
    }
    proof {
        lemma_first_main(attrs@, k as int);
    }
    k
}

/// The index of the first placement marker in `attrs`, or its length.
fn find_section(attrs: &Vec<Attribute>) -> (k: usize)
    ensures
        k == first_section(attrs@),
        k < attrs@.len() ==> is_section(attrs@[k as int]),
{
    let mut k: usize = 0;
    while k < attrs.len() && !is_parameters_section(&attrs[k])
        invariant
            k <= attrs@.len(),
            forall|j: int| 0 <= j < k ==> !is_section(#[trigger] attrs@[j]),
        decreases attrs@.len() - k,
    {
        k = k + 1;
    }
    proof {
        lemma_first_section(attrs@, k as int);
    }
    k
}

pub open spec fn opt_seq(o: Option<Seq<Seq<char>>>) -> Seq<Seq<char>> {
    match o {
        Some(x) => x,
        None => seq![],
    }
}

/// The blank line that parts the block from documentation that follows it.
pub open spec fn separator(after: Seq<Seq<char>>) -> Seq<Seq<char>> {
    if after.len() > 0 {
        seq![seq![]]
    } else {
        seq![]
    }
}

/// `after` is `before` with all documentation and placement markers taken off.
pub open spec fn item_stripped(before: ItemFn, after: ItemFn) -> bool {
    &&& after.attrs@ == plain_attrs(before.attrs@)
    &&& args_stripped(before.inputs@, after.inputs@)
    &&& generics_stripped(before.generics@, after.generics@)
}

/// The documentation of the function after the transformation: what came
/// before the marker, the parameters block, the generics block, and what
/// came after the marker, set apart by a blank line.
pub open spec fn roxygen_lines(f: ItemFn) -> Seq<Seq<char>> {
    let after = docs_after(f.attrs@);
    docs_before(f.attrs@) + opt_seq(block_lines("Parameters"@, documented_params(f.inputs@)))
        + opt_seq(block_lines("Generics"@, documented_generics(f.generics@))) + separator(after)
        + after
}

/// Whether `roxygen` has nothing to document on `f`.
pub open spec fn nothing_documented(f: ItemFn) -> bool {
    documented_params(f.inputs@).len() == 0 && documented_generics(f.generics@).len() == 0
}

/// Appends `more` to `lines`.
fn append_lines(lines: &mut Vec<String>, more: Vec<String>)
    ensures
        final(lines).deep_view() == old(lines).deep_view() + more.deep_view(),
{
    let ghost start = lines.deep_view();
    let mut more = more;
    let ghost added = more.deep_view();
    lines.append(&mut more);
    assert(lines.deep_view() =~= start + added);
}

/// Appends the lines of a block, if there is one.
fn append_block(lines: &mut Vec<String>, block: Option<Vec<String>>)
    ensures
        final(lines).deep_view() == old(lines).deep_view() + opt_seq(
            crate::util::opt_lines(block),
        ),
{
    match block {
        Some(b) => append_lines(lines, b),
        None => {
            assert(lines.deep_view() =~= lines.deep_view() + Seq::<Seq<char>>::empty());
        },
    }
}

/// Appends a blank line, then `after`, where `after` is not empty.
fn append_after(lines: &mut Vec<String>, after: Vec<String>)
    ensures
        final(lines).deep_view() == old(lines).deep_view() + separator(after.deep_view())
            + after.deep_view(),
{
    if after.len() > 0 {
        let ghost start = lines.deep_view();
        lines.push(String::new());
        assert(lines.deep_view() =~= start + seq![Seq::<char>::empty()]);
        append_lines(lines, after);
    } else {
        assert(lines.deep_view() =~= lines.deep_view() + separator(after.deep_view())
            + after.deep_view());
    }
}

/// Collects the documentation of the parameters and generic parameters of
/// `item` into one block of its own documentation, and returns the new
/// documentation lines. `item` keeps every other attribute; its
/// documentation and placement marker are taken off.
pub fn roxygen(item: &mut ItemFn) -> (r: Result<Vec<String>, RoxygenError>)
    ensures
        first_main(old(item).attrs@) < old(item).attrs@.len() ==> {
            &&& r == Err::<Vec<String>, RoxygenError>(
                RoxygenError::DuplicateRoxygen(old(item).attrs@[first_main(old(item).attrs@)]->handle),
            )
            &&& *final(item) == *old(item)
        },
        first_main(old(item).attrs@) == old(item).attrs@.len() && has_duplicate_section(
            old(item).attrs@,
        ) ==> {
            &&& r == Err::<Vec<String>, RoxygenError>(
                RoxygenError::DuplicateSection(old(item).attrs@[second_section(old(item).attrs@)]->handle),
            )
            &&& *final(item) == *old(item)
        },
        first_main(old(item).attrs@) == old(item).attrs@.len() && !has_duplicate_section(
            old(item).attrs@,
        ) ==> {
            &&& item_stripped(*old(item), *final(item))
            &&& nothing_documented(*old(item)) ==> r == Err::<Vec<String>, RoxygenError>(
                RoxygenError::NothingDocumented,
            )
            &&& !nothing_documented(*old(item)) ==> (r matches Ok(lines) && lines.deep_view()
                == roxygen_lines(*old(item)))
        },
{
    let main_at = find_main(&item.attrs);
    if main_at < item.attrs.len() {
        return Err(RoxygenError::DuplicateRoxygen(item.attrs[main_at].handle()));
    }
    let function_docs = match extract_fn_doc_attrs(&mut item.attrs) {
        Ok(d) => d,
        Err(e) => return Err(e),
    };
    let documented_params = extract_documented_parameters(&mut item.inputs);
    let documented_generics = extract_documented_generics(&mut item.generics);
    if documented_params.len() == 0 && documented_generics.len() == 0 {
        return Err(RoxygenError::NothingDocumented);
    }
    let parameter_doc_block = make_doc_block("Parameters", documented_params);
    let generics_doc_block = make_doc_block("Generics", documented_generics);
    let mut lines = function_docs.before_args_section;
    append_block(&mut lines, parameter_doc_block);
    append_block(&mut lines, generics_doc_block);
    append_after(&mut lines, function_docs.after_args_section);
    Ok(lines)
}

/// The documentation of the function after the shift-up transformation.
/// What the shift gives the function itself follows the function's own
/// documentation: after the marker if there is one, else before the block.
pub open spec fn argdocpos_lines(f: ItemFn) -> Seq<Seq<char>> {
    let t = typed(f.inputs@);
    let extra = opt_seq(shift_docs0(t));
    let marked = first_section(f.attrs@) < f.attrs@.len();
    let before = if marked {
        docs_before(f.attrs@)
    } else {
        docs_before(f.attrs@) + extra
    };
    let after = if marked {
        docs_after(f.attrs@) + extra
    } else {
        seq![]
    };
    before + opt_seq(block_lines("Parameters"@, shift_items(t))) + separator(after) + after
}

/// Like `roxygen`, but the documentation written after each parameter is
/// given to that parameter (see `extract_documented_parameters_shift_up`).
/// Generic parameters are left as they are.
pub fn argdocpos(item: &mut ItemFn) -> (r: Result<Vec<String>, RoxygenError>)
    ensures
        has_duplicate_section(old(item).attrs@) ==> {
            &&& r == Err::<Vec<String>, RoxygenError>(
                RoxygenError::DuplicateSection(old(item).attrs@[second_section(old(item).attrs@)]->handle),
            )
            &&& *final(item) == *old(item)
        },
        !has_duplicate_section(old(item).attrs@) ==> {
            &&& r matches Ok(lines) && lines.deep_view() == argdocpos_lines(*old(item))
            &&& final(item).attrs@ == plain_attrs(old(item).attrs@)
            &&& args_stripped(old(item).inputs@, final(item).inputs@)
            &&& final(item).generics == old(item).generics
        },
{
    let marked = find_section(&item.attrs) < item.attrs.len();
    let function_docs = match extract_fn_doc_attrs(&mut item.attrs) {
        Ok(d) => d,
        Err(e) => return Err(e),
    };
    let (docs0, documented) = extract_documented_parameters_shift_up(&mut item.inputs);
    let mut before = function_docs.before_args_section;
    let mut after = function_docs.after_args_section;
    if let Some(d) = docs0 {
        if marked {
            append_lines(&mut after, d);
        } else {
            append_lines(&mut before, d);
        }
    } else {
        assert(before.deep_view() =~= before.deep_view() + Seq::<Seq<char>>::empty());
        assert(after.deep_view() =~= after.deep_view() + Seq::<Seq<char>>::empty());
    }
    let block = make_doc_block("Parameters", documented);
    let mut lines = before;
    append_block(&mut lines, block);
    append_after(&mut lines, after);
    Ok(lines)
}

/// The check made where the placement marker is expanded on its own: the
/// main attribute must come before it, so none may be left after it.
pub fn parameters_section(item: &ItemFn) -> (r: Result<(), RoxygenError>)
    ensures
        r == if first_main(item.attrs@) < item.attrs@.len() {
            Err(RoxygenError::MisplacedSection(item.attrs@[first_main(item.attrs@)]->handle))
        } else {
            Ok(())
        },
{
    let main_at = find_main(&item.attrs);
    if main_at < item.attrs.len() {
        Err(RoxygenError::MisplacedSection(item.attrs[main_at].handle()))
    } else {
        Ok(())
    }
}

} // verus!
