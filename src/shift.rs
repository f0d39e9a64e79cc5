//! Shift-up redistribution: documentation written after a parameter, which the
//! surface syntax attaches to the next parameter, is given back to the
//! parameter it follows.
use itertools::{Itertools, Position};
use vstd::prelude::*;

use crate::model::{doc_lines, FnArg, PatType};
use crate::util::{all_wf, args_stripped, extract_doc_attrs, items_view, opt_lines, DocumentedIdent};

verus! {

/// Where an item stands in a sequence.
pub enum Place {
    First,
    Middle,
    Last,
    Only,
}

/// The place of item `i` among `n` items.
pub open spec fn place_of(i: int, n: int) -> Place {
    if n == 1 {
        Place::Only
    } else if i == 0 {
        Place::First
    } else if i == n - 1 {
        Place::Last
    } else {
        Place::Middle
    }
}

/// Relies on itertools::Itertools::with_position: it tags each of the `n`
/// items as first, middle, last or only.
#[verifier::external_body]
fn positions(n: usize) -> (r: Vec<Place>)
    ensures
        r@.len() == n,
        forall|i: int| 0 <= i < n ==> r@[i] == place_of(i, n as int),
{
    (0..n).with_position().map(|(p, _)| match p {
        Position::First => Place::First,
        Position::Middle => Place::Middle,
        Position::Last => Place::Last,
        Position::Only => Place::Only,
    }).collect()
}

/// The typed parameters of `s`, receivers left out.
pub open spec fn typed(s: Seq<FnArg>) -> Seq<PatType>
    decreases s.len(),
{
    if s.len() == 0 {
        seq![]
    } else {
        let rest = typed(s.drop_last());
        match s.last() {
            FnArg::Typed(p) => rest.push(p),
            FnArg::Receiver => rest,
        }
    }
}

/// The documentation of typed parameter `k`.
pub open spec fn docs_of(t: Seq<PatType>, k: int) -> Seq<Seq<char>> {
    doc_lines(t[k].attrs@)
}

/// A line that starts with the escape marker `!`.
pub open spec fn is_escaped(l: Seq<char>) -> bool {
    l.len() > 0 && l[0] == '!'
}

/// The index of the first escaped line of `d`, or `d.len()`.
pub open spec fn split_at(d: Seq<Seq<char>>) -> int
    decreases d.len(),
{
    if d.len() == 0 {
        0
    } else {
        let k = split_at(d.drop_last());
        if k < d.len() - 1 {
            k
        } else if is_escaped(d.last()) {
            d.len() - 1
        } else {
            d.len() as int
        }
    }
}

/// The lines before the first escaped line.
pub open spec fn split_pre(d: Seq<Seq<char>>) -> Seq<Seq<char>> {
    d.take(split_at(d))
}

/// The first escaped line without its marker, and every line after it.
pub open spec fn split_post(d: Seq<Seq<char>>) -> Seq<Seq<char>> {
    let k = split_at(d);
    if k < d.len() {
        seq![d[k].skip(1)] + d.skip(k + 1)
    } else {
        seq![]
    }
}

/// What interior parameters `1 .. m` give their previous parameter.
pub open spec fn shifted(t: Seq<PatType>, m: int) -> Seq<(Seq<char>, Seq<Seq<char>>)>
    decreases m,
{
    if m <= 1 {
        seq![]
    } else {
        let rest = shifted(t, m - 1);
        let d = docs_of(t, m - 1);
        if d.len() > 0 {
            rest.push((t[m - 2].ident@, d))
        } else {
            rest
        }
    }
}

/// The item for `name` with `d`, if `d` holds anything.
pub open spec fn item_if(name: Seq<char>, d: Seq<Seq<char>>) -> Seq<(Seq<char>, Seq<Seq<char>>)> {
    if d.len() > 0 {
        seq![(name, d)]
    } else {
        seq![]
    }
}

/// The documented parameters after the shift, in declaration order.
pub open spec fn shift_items(t: Seq<PatType>) -> Seq<(Seq<char>, Seq<Seq<char>>)> {
    let n = t.len() as int;
    if n == 0 {
        seq![]
    } else {
        let d = docs_of(t, n - 1);
        let before = if n >= 2 {
            item_if(t[n - 2].ident@, split_pre(d))
        } else {
            seq![]
        };
        shifted(t, n - 1) + before + item_if(t[n - 1].ident@, split_post(d))
    }
}

/// The documentation that the shift gives the function itself: that of the
/// first parameter, or, with a single parameter, the part of its
/// documentation that has no parameter before it.
pub open spec fn shift_docs0(t: Seq<PatType>) -> Option<Seq<Seq<char>>> {
    let n = t.len() as int;
    let d = if n == 1 {
        split_pre(docs_of(t, 0))
    } else if n >= 2 {
        docs_of(t, 0)
    } else {
        seq![]
    };
    if d.len() > 0 {
        Some(d)
    } else {
        None
    }
}

/// `split_at` is the first index of an escaped line.
pub proof fn lemma_split_at(d: Seq<Seq<char>>, k: int)
    requires
        0 <= k <= d.len(),
        forall|j: int| 0 <= j < k ==> !is_escaped(#[trigger] d[j]),
        k < d.len() ==> is_escaped(d[k]),
    ensures
        split_at(d) == k,
    decreases d.len(),
{
    if d.len() > 0 {
        if k < d.len() - 1 {
            lemma_split_at(d.drop_last(), k);
        } else {
            lemma_split_at(d.drop_last(), d.len() - 1);
        }
    }
}

/// Splits a last parameter's documentation at its first escaped line: the
/// lines before it, and that line without the marker with all that follow.
/// Further markers are kept as text.
pub fn split_escaped(lines: &Vec<String>) -> (r: (Vec<String>, Vec<String>))
    ensures
        r.0.deep_view() == split_pre(lines.deep_view()),
        r.1.deep_view() == split_post(lines.deep_view()),
{
    let ghost d = lines.deep_view();
    let mut pre: Vec<String> = Vec::new();
    let mut post: Vec<String> = Vec::new();
    let mut is_split = false;
    let ghost mut at: int = 0;
    let mut idx: usize = 0;
    while idx < lines.len()
        invariant
            d == lines.deep_view(),
            idx <= d.len(),
            !is_split ==> at == idx,
            is_split ==> 0 <= at < idx,
            forall|j: int| 0 <= j < at ==> !is_escaped(#[trigger] d[j]),
            is_split ==> is_escaped(d[at]),
            pre.deep_view() == d.take(at),
            !is_split ==> post.deep_view() == Seq::<Seq<char>>::empty(),
            is_split ==> post.deep_view() == seq![d[at].skip(1)] + d.subrange(at + 1, idx as int),
        decreases d.len() - idx,
    {
        let line = lines[idx].as_str();
        let n = line.unicode_len();
        assert(d[idx as int] == lines@[idx as int]@);
        let ghost old_post = post.deep_view();
        if is_split {
            post.push(lines[idx].clone());
            proof {
                assert(post.deep_view() =~= old_post.push(d[idx as int]));
                assert(post.deep_view() =~= seq![d[at].skip(1)] + d.subrange(at + 1, idx + 1));
            }
        } else if n > 0 && line.get_char(0) == '!' {
            is_split = true;
            post.push(line.substring_char(1, n).to_owned());
            proof {
                at = idx as int;
                assert(d[at].skip(1) =~= line@.subrange(1, n as int));
                assert(post.deep_view() =~= seq![d[at].skip(1)] + d.subrange(at + 1, idx + 1));
            }
        } else {
            let ghost old_pre = pre.deep_view();
            pre.push(lines[idx].clone());
            proof {
                assert(pre.deep_view() =~= old_pre.push(d[idx as int]));
                at = idx + 1;
                assert(pre.deep_view() =~= d.take(at));
            }
        }
        idx = idx + 1;
    }
    proof {
        lemma_split_at(d, at);
        if is_split {
            assert(d.subrange(at + 1, d.len() as int) =~= d.skip(at + 1));
        }
    }
    (pre, post)
}

} // verus!

verus! {

/// Takes the documentation off every parameter, and returns the names and the
/// documentation of the typed ones, in order.
fn strip_typed(args: &mut Vec<FnArg>) -> (r: (Vec<String>, Vec<Vec<String>>))
    ensures
        args_stripped(old(args)@, final(args)@),
        r.0@.len() == typed(old(args)@).len(),
        r.1@.len() == typed(old(args)@).len(),
        forall|k: int| 0 <= k < r.0@.len() ==> #[trigger] r.0@[k] == typed(old(args)@)[k].ident,
        forall|k: int|
            0 <= k < r.1@.len() ==> (#[trigger] r.1@[k]).deep_view() == docs_of(typed(old(args)@), k),
{
    let mut pending: Vec<FnArg> = Vec::new();
    std::mem::swap(args, &mut pending);
    let ghost orig = pending@;
    let ghost mut i: int = 0;
    let mut idents: Vec<String> = Vec::new();
    let mut docs: Vec<Vec<String>> = Vec::new();
    while pending.len() > 0
        invariant
            0 <= i <= orig.len(),
            pending@ == orig.skip(i),
            args_stripped(orig.take(i), args@),
            idents@.len() == typed(orig.take(i)).len(),
            docs@.len() == typed(orig.take(i)).len(),
            forall|k: int| 0 <= k < idents@.len() ==> #[trigger] idents@[k] == typed(orig.take(i))[k].ident,
            forall|k: int|
                0 <= k < docs@.len() ==> (#[trigger] docs@[k]).deep_view() == docs_of(typed(orig.take(i)), k),
        decreases pending.len(),
    {
        let arg = pending.remove(0);
        proof {
            assert(orig.take(i + 1).drop_last() =~= orig.take(i));
            assert(orig.skip(i).remove(0) =~= orig.skip(i + 1));
        }
        match arg {
            FnArg::Typed(mut p) => {
                let d = extract_doc_attrs(&mut p.attrs);
                idents.push(p.ident.clone());
                docs.push(d);
                args.push(FnArg::Typed(p));
            },
            FnArg::Receiver => {
                args.push(FnArg::Receiver);
            },
        }
        proof {
            assert(crate::util::arg_stripped(orig.take(i + 1)[i], args@[i]));
            i = i + 1;
        }
    }
    proof {
        assert(orig.take(orig.len() as int) =~= orig);
    }
    (idents, docs)
}

/// Like `extract_documented_parameters`, but the documentation of each
/// parameter goes to the parameter before it. The first parameter's goes to
/// the function itself (the first part of the result). The last parameter's
/// is split at its first line that starts with `!`: the lines before it go to
/// the parameter before the last (to the function if there is none), that
/// line without the `!` and all that follow go to the last parameter.
/// Receivers are skipped.
pub fn extract_documented_parameters_shift_up(args: &mut Vec<FnArg>) -> (r: (
    Option<Vec<String>>,
    Vec<DocumentedIdent>,
))
    ensures
        opt_lines(r.0) == shift_docs0(typed(old(args)@)),
        items_view(r.1@) == shift_items(typed(old(args)@)),
        all_wf(r.1@),
        args_stripped(old(args)@, final(args)@),
{
    let ghost t = typed(args@);
    let (idents, mut docs) = strip_typed(args);
    let n = idents.len();
    let places = positions(n);
    let mut docs0: Option<Vec<String>> = None;
    let mut last_docs: Vec<String> = Vec::new();
    let mut documented: Vec<DocumentedIdent> = Vec::new();
    let mut k: usize = 0;
    while k < n
        invariant
            n == t.len(),
            idents@.len() == n,
            places@.len() == n,
            forall|j: int| 0 <= j < n ==> places@[j] == place_of(j, n as int),
            forall|j: int| 0 <= j < n ==> #[trigger] idents@[j] == t[j].ident,
            k <= n,
            docs@.len() == n - k,
            forall|j: int| 0 <= j < n - k ==> (#[trigger] docs@[j]).deep_view() == docs_of(t, k + j),
            k < n ==> items_view(documented@) == shifted(t, k as int),
            k == n ==> items_view(documented@) == shifted(t, n - 1),
            all_wf(documented@),
            opt_lines(docs0) == (if n >= 2 && k >= 1 && docs_of(t, 0).len() > 0 {
                Some(docs_of(t, 0))
            } else {
                None
            }),
            k == n && n > 0 ==> last_docs.deep_view() == docs_of(t, n - 1),
            k < n || n == 0 ==> last_docs@.len() == 0,
        decreases n - k,
    {
        let ghost before = docs@;
        let d = docs.remove(0);
        assert(d.deep_view() == docs_of(t, k as int));
        assert(places@[k as int] == place_of(k as int, n as int));
        match &places[k] {
            Place::First => {
                if d.len() > 0 {
                    docs0 = Some(d);
                }
            },
            Place::Middle => {
                if d.len() > 0 {
                    documented.push(DocumentedIdent::new(idents[k - 1].clone(), d));
                }
            },
            Place::Last | Place::Only => {
                last_docs = d;
            },
        }
        proof {
            if k + 1 < n {
                assert(items_view(documented@) =~= shifted(t, k + 1));
            }
            assert forall|j: int| 0 <= j < n - (k + 1) implies (#[trigger] docs@[j]).deep_view()
                == docs_of(t, k + 1 + j) by {
                assert(docs@[j] == before[j + 1]);
            }
        }
        k = k + 1;
    }
    let (pre, post) = split_escaped(&last_docs);
    let ghost mid = documented@;
    let ghost docs0_mid = docs0;
    if pre.len() > 0 {
        if n >= 2 {
            documented.push(DocumentedIdent::new(idents[n - 2].clone(), pre));
        } else {
            docs0 = Some(pre);
        }
    }
    if post.len() > 0 {
        documented.push(DocumentedIdent::new(idents[n - 1].clone(), post));
    }
    proof {
        if n == 1 {
            assert(opt_lines(docs0_mid) == None::<Seq<Seq<char>>>);
            assert(pre.deep_view() == split_pre(docs_of(t, 0)));
            assert(opt_lines(docs0) == shift_docs0(t));
        } else if n >= 2 {
            assert(opt_lines(docs0) == shift_docs0(t));
        } else {
            assert(last_docs.deep_view() =~= Seq::<Seq<char>>::empty());
            assert(pre.deep_view().len() == 0);
        }
        if n > 0 {
            let d = docs_of(t, n - 1);
            let before = if n >= 2 {
                item_if(t[n - 2].ident@, split_pre(d))
            } else {
                seq![]
            };
            assert(items_view(documented@) =~= items_view(mid) + before + item_if(
                t[n - 1].ident@,
                split_post(d),
            ));
        } else {
            assert(items_view(documented@) =~= seq![]);
        }
    }
    (docs0, documented)
}

} // verus!
