//! The parts of a function declaration that the documentation logic reads.
use vstd::prelude::*;

verus! {

/// One attribute of a function, a parameter or a generic parameter.
pub enum Attribute {
    /// `#[doc = "..."]`: one line of documentation.
    Doc(String),
    /// Any other attribute, given by its path segments. `handle` is chosen by
    /// the caller to find the attribute's tokens again; it is passed through.
    Other { path: Vec<String>, handle: usize },
}

impl Attribute {
    /// The handle of an attribute that is not documentation; 0 for documentation.
    pub fn handle(&self) -> (r: usize)
        ensures
            self is Other ==> r == self->handle,
    {
        match self {
            Attribute::Doc(_) => 0,
            Attribute::Other { handle, .. } => *handle,
        }
    }
}

/// A simple `name: Type` parameter; the type is not needed here.
pub struct PatType {
    pub ident: String,
    pub attrs: Vec<Attribute>,
}

/// A parameter of a function.
pub enum FnArg {
    /// `self`, `&self` or `&mut self`: never documented.
    Receiver,
    Typed(PatType),
}

/// A lifetime, type or const parameter; its kind plays no part in documentation.
pub struct GenericParam {
    pub ident: String,
    pub attrs: Vec<Attribute>,
}

/// A function declaration: its own attributes, its parameters and its generics.
pub struct ItemFn {
    pub attrs: Vec<Attribute>,
    pub inputs: Vec<FnArg>,
    pub generics: Vec<GenericParam>,
}

/// Why a declaration cannot be transformed. An attribute is given by its handle.
#[derive(Debug, PartialEq, Eq, Structural)]
pub enum RoxygenError {
    /// The main attribute appears on the function a second time.
    DuplicateRoxygen(usize),
    /// The placement marker appears a second time.
    DuplicateSection(usize),
    /// Neither a parameter nor a generic parameter is documented.
    NothingDocumented,
    /// The placement marker stands before the main attribute.
    MisplacedSection(usize),
}

pub open spec fn is_doc(a: Attribute) -> bool {
    a is Doc
}

/// The documentation lines among `s`, in order.
pub open spec fn doc_lines(s: Seq<Attribute>) -> Seq<Seq<char>>
    decreases s.len(),
{
    if s.len() == 0 {
        seq![]
    } else {
        let rest = doc_lines(s.drop_last());
        match s.last() {
            Attribute::Doc(t) => rest.push(t@),
            _ => rest,
        }
    }
}

/// The attributes of `s` that are not documentation, in order.
pub open spec fn non_doc(s: Seq<Attribute>) -> Seq<Attribute>
    decreases s.len(),
{
    if s.len() == 0 {
        seq![]
    } else {
        let rest = non_doc(s.drop_last());
        if is_doc(s.last()) {
            rest
        } else {
            rest.push(s.last())
        }
    }
}

} // verus!
