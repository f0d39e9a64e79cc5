use doxidize::model::{Attribute, FnArg, GenericParam, ItemFn, PatType, RoxygenError};
use doxidize::shift::extract_documented_parameters_shift_up;
use doxidize::util::{
    extract_doc_attrs, extract_documented_generics, extract_documented_parameters,
    extract_fn_doc_attrs, make_doc_block, prepend_to_doc_attribute, DocumentedIdent,
};
use doxidize::{argdocpos, is_parameters_section, is_roxygen_main, parameters_section, roxygen};

fn doc(s: &str) -> Attribute {
    Attribute::Doc(s.to_string())
}

fn other(path: &[&str], handle: usize) -> Attribute {
    Attribute::Other { path: path.iter().map(|s| s.to_string()).collect(), handle }
}

fn section(handle: usize) -> Attribute {
    other(&["parameters_section"], handle)
}

fn param(ident: &str, attrs: Vec<Attribute>) -> FnArg {
    FnArg::Typed(PatType { ident: ident.to_string(), attrs })
}

fn generic(ident: &str, attrs: Vec<Attribute>) -> GenericParam {
    GenericParam { ident: ident.to_string(), attrs }
}

fn docs(lines: &[&str]) -> Vec<Attribute> {
    lines.iter().map(|l| doc(l)).collect()
}

fn strings(lines: &[&str]) -> Vec<String> {
    lines.iter().map(|l| l.to_string()).collect()
}

fn attr_docs(attrs: &[Attribute]) -> usize {
    attrs.iter().filter(|a| matches!(a, Attribute::Doc(_))).count()
}

fn foo(first: i32, second: f32) -> f32 {
    first as f32 - second
}

#[test]
fn test_foo() {
    let mut item = ItemFn {
        attrs: docs(&[" hello", "      this", "          is doc"]),
        inputs: vec![
            param("first", docs(&[" some comments", " more comments"])),
            param("second", vec![]),
        ],
        generics: vec![],
    };
    let lines = roxygen(&mut item).unwrap();
    assert_eq!(
        lines,
        strings(&[
            " hello",
            "      this",
            "          is doc",
            "",
            " **Parameters**:",
            "",
            " * `first`: some comments",
            "    more comments",
        ])
    );
    assert_eq!(foo(1, 3.), -2.);
}

#[test]
fn concrete_scenario_two_documented_parameters() {
    let mut args = vec![
        param("bar", docs(&["one line of docs"])),
        param("baz", docs(&["has", "two lines of docs"])),
        param("_undocumented", vec![]),
    ];
    let items = extract_documented_parameters(&mut args);
    assert_eq!(items.len(), 2);
    assert_eq!(items[0].ident, "bar");
    assert_eq!(items[0].docs, strings(&["one line of docs"]));
    assert_eq!(items[1].ident, "baz");
    assert_eq!(items[1].docs, strings(&["has", "two lines of docs"]));
    let block = make_doc_block("Parameters", items).unwrap();
    assert_eq!(
        block,
        strings(&[
            "",
            " **Parameters**:",
            "",
            " * `bar`:one line of docs",
            " * `baz`:has",
            "   two lines of docs",
        ])
    );
}

#[test]
fn full_expansion_with_section_and_generics() {
    let mut item = ItemFn {
        attrs: vec![
            doc(" this is documentation"),
            doc(" and this is too"),
            section(7),
            doc(" this goes after the arguments section"),
        ],
        inputs: vec![
            param("bar", docs(&[" this has one line of docs"])),
            param("baz", docs(&[" this has", " two lines of docs"])),
            param("_undocumented", vec![]),
        ],
        generics: vec![
            generic("a", docs(&[" a lifetime"])),
            generic("S", vec![]),
            generic("T", docs(&[" documentation for parameter T", " spans multiple lines"])),
            generic("N", docs(&[" a const generic"])),
        ],
    };
    let lines = roxygen(&mut item).unwrap();
    assert_eq!(
        lines,
        strings(&[
            " this is documentation",
            " and this is too",
            "",
            " **Parameters**:",
            "",
            " * `bar`: this has one line of docs",
            " * `baz`: this has",
            "    two lines of docs",
            "",
            " **Generics**:",
            "",
            " * `a`: a lifetime",
            " * `T`: documentation for parameter T",
            "    spans multiple lines",
            " * `N`: a const generic",
            "",
            " this goes after the arguments section",
        ])
    );
    assert!(item.attrs.is_empty());
    for arg in &item.inputs {
        if let FnArg::Typed(p) = arg {
            assert!(p.attrs.is_empty());
        }
    }
    assert!(item.generics.iter().all(|g| g.attrs.is_empty()));
}

#[test]
fn parameters_follow_declaration_order() {
    let mut args = vec![
        param("z", docs(&[" last letter"])),
        param("m", vec![]),
        param("a", docs(&[" first letter"])),
    ];
    let items = extract_documented_parameters(&mut args);
    let names: Vec<&str> = items.iter().map(|d| d.ident.as_str()).collect();
    assert_eq!(names, vec!["z", "a"]);
    let mut generics = vec![generic("Z", docs(&[" z"])), generic("A", docs(&[" a"]))];
    let items = extract_documented_generics(&mut generics);
    let names: Vec<&str> = items.iter().map(|d| d.ident.as_str()).collect();
    assert_eq!(names, vec!["Z", "A"]);
}

#[test]
fn other_attributes_are_kept_in_order() {
    let mut item = ItemFn {
        attrs: vec![
            other(&["inline"], 1),
            doc(" docs"),
            other(&["allow"], 2),
            section(3),
            other(&["must_use"], 4),
        ],
        inputs: vec![param("x", vec![other(&["cfg"], 5), doc(" x"), other(&["allow"], 6)])],
        generics: vec![],
    };
    roxygen(&mut item).unwrap();
    let handles: Vec<usize> = item.attrs.iter().map(|a| a.handle()).collect();
    assert_eq!(handles, vec![1, 2, 4]);
    match &item.inputs[0] {
        FnArg::Typed(p) => {
            let handles: Vec<usize> = p.attrs.iter().map(|a| a.handle()).collect();
            assert_eq!(handles, vec![5, 6]);
        }
        FnArg::Receiver => panic!("parameter turned into a receiver"),
    }
}

#[test]
fn classifier_splits_documentation_from_other() {
    let mut attrs = vec![doc(" a"), other(&["inline"], 9), doc(" b")];
    let lines = extract_doc_attrs(&mut attrs);
    assert_eq!(lines, strings(&[" a", " b"]));
    assert_eq!(attrs.len(), 1);
    assert_eq!(attrs[0].handle(), 9);
    let mut empty: Vec<Attribute> = vec![];
    assert!(extract_doc_attrs(&mut empty).is_empty());
}

#[test]
fn no_generics_block_without_documented_generics() {
    let mut item = ItemFn {
        attrs: vec![],
        inputs: vec![param("x", docs(&[" the x"]))],
        generics: vec![generic("T", vec![])],
    };
    let lines = roxygen(&mut item).unwrap();
    assert_eq!(lines, strings(&["", " **Parameters**:", "", " * `x`: the x"]));
    assert!(!lines.iter().any(|l| l.contains("Generics")));
    assert_eq!(make_doc_block("Generics", vec![]), None);
}

#[test]
fn generics_only_gives_no_parameters_block() {
    let mut item = ItemFn {
        attrs: vec![doc(" f")],
        inputs: vec![param("x", vec![])],
        generics: vec![generic("T", docs(&[" the T"]))],
    };
    let lines = roxygen(&mut item).unwrap();
    assert_eq!(lines, strings(&[" f", "", " **Generics**:", "", " * `T`: the T"]));
}

#[test]
fn marker_default_puts_documentation_first() {
    let mut item = ItemFn {
        attrs: docs(&[" one", " two"]),
        inputs: vec![param("x", docs(&[" the x"]))],
        generics: vec![],
    };
    let lines = roxygen(&mut item).unwrap();
    assert_eq!(lines, strings(&[" one", " two", "", " **Parameters**:", "", " * `x`: the x"]));
    let mut attrs = docs(&[" one", " two"]);
    let d = extract_fn_doc_attrs(&mut attrs).unwrap();
    assert_eq!(d.before_args_section, strings(&[" one", " two"]));
    assert!(d.after_args_section.is_empty());
}

#[test]
fn qualified_marker_is_recognised() {
    let mut attrs = vec![doc(" a"), other(&["roxygen", "parameters_section"], 1), doc(" b")];
    let d = extract_fn_doc_attrs(&mut attrs).unwrap();
    assert_eq!(d.before_args_section, strings(&[" a"]));
    assert_eq!(d.after_args_section, strings(&[" b"]));
    assert!(attrs.is_empty());
    assert!(is_parameters_section(&other(&["parameters_section"], 0)));
    assert!(!is_parameters_section(&other(&["other", "parameters_section"], 0)));
    assert!(!is_parameters_section(&doc("parameters_section")));
    assert!(is_roxygen_main(&other(&["roxygen"], 0)));
    assert!(!is_roxygen_main(&other(&["roxygen", "roxygen"], 0)));
}

#[test]
fn duplicate_marker_fails() {
    let attrs = vec![doc(" a"), section(3), doc(" b"), section(8), doc(" c")];
    let mut copy = attrs.clone_attrs();
    assert_eq!(extract_fn_doc_attrs(&mut copy).err(), Some(RoxygenError::DuplicateSection(8)));
    assert_eq!(attr_docs(&copy), 3);
    let mut item = ItemFn {
        attrs,
        inputs: vec![param("first", docs(&[" some comments"])), param("second", vec![])],
        generics: vec![],
    };
    assert_eq!(roxygen(&mut item), Err(RoxygenError::DuplicateSection(8)));
    assert_eq!(attr_docs(&item.attrs), 3);
}

trait CloneAttrs {
    fn clone_attrs(&self) -> Vec<Attribute>;
}

impl CloneAttrs for Vec<Attribute> {
    fn clone_attrs(&self) -> Vec<Attribute> {
        self.iter()
            .map(|a| match a {
                Attribute::Doc(s) => Attribute::Doc(s.clone()),
                Attribute::Other { path, handle } => Attribute::Other { path: path.clone(), handle: *handle },
            })
            .collect()
    }
}

#[test]
fn duplicate_main_attribute_fails() {
    let mut item = ItemFn {
        attrs: vec![doc(" here are some comments"), other(&["roxygen"], 4), doc(" and some more")],
        inputs: vec![param("first", docs(&[" some comments"]))],
        generics: vec![],
    };
    assert_eq!(roxygen(&mut item), Err(RoxygenError::DuplicateRoxygen(4)));
}

#[test]
fn nothing_documented_fails() {
    let mut item = ItemFn {
        attrs: docs(&[" f"]),
        inputs: vec![FnArg::Receiver, param("x", vec![])],
        generics: vec![generic("T", vec![])],
    };
    assert_eq!(roxygen(&mut item), Err(RoxygenError::NothingDocumented));
}

#[test]
fn misplaced_section_fails() {
    let item = ItemFn { attrs: vec![doc(" a"), other(&["roxygen"], 2)], inputs: vec![], generics: vec![] };
    assert_eq!(parameters_section(&item), Err(RoxygenError::MisplacedSection(2)));
    let item = ItemFn { attrs: vec![doc(" a"), other(&["inline"], 2)], inputs: vec![], generics: vec![] };
    assert_eq!(parameters_section(&item), Ok(()));
}

#[test]
fn receivers_are_skipped() {
    let mut args = vec![FnArg::Receiver, param("x", docs(&[" the x"]))];
    let items = extract_documented_parameters(&mut args);
    assert_eq!(items.len(), 1);
    assert_eq!(items[0].ident, "x");
    assert!(matches!(args[0], FnArg::Receiver));
}

#[test]
fn prepend_and_entries() {
    assert_eq!(prepend_to_doc_attribute(" * `x`:", " text"), " * `x`: text");
    let items = vec![DocumentedIdent::new("x".to_string(), strings(&[" a", " b", " c"]))];
    assert_eq!(
        make_doc_block("Caption", items).unwrap(),
        strings(&["", " **Caption**:", "", " * `x`: a", "    b", "    c"])
    );
}

#[test]
fn shift_up_three_parameters() {
    let mut item = ItemFn {
        attrs: vec![],
        inputs: vec![
            param("bar", docs(&[" this is documentation", " and this is too"])),
            param("baz", docs(&[" this has one line of docs"])),
            param("_undocumented", docs(&[" this has", " two lines of docs"])),
        ],
        generics: vec![],
    };
    let lines = argdocpos(&mut item).unwrap();
    assert_eq!(
        lines,
        strings(&[
            " this is documentation",
            " and this is too",
            "",
            " **Parameters**:",
            "",
            " * `bar`: this has one line of docs",
            " * `baz`: this has",
            "    two lines of docs",
        ])
    );
}

#[test]
fn shift_up_first_docs_follow_marker() {
    let mut item = ItemFn {
        attrs: vec![doc(" this is documentation"), doc(" and this is too"), section(1)],
        inputs: vec![
            param("bar", docs(&[" this goes after the arguments section"])),
            param("baz", docs(&[" this has one line of docs"])),
            param("_undocumented", docs(&[" this has", " two lines of docs"])),
        ],
        generics: vec![generic("T", docs(&[" untouched"]))],
    };
    let lines = argdocpos(&mut item).unwrap();
    assert_eq!(
        lines,
        strings(&[
            " this is documentation",
            " and this is too",
            "",
            " **Parameters**:",
            "",
            " * `bar`: this has one line of docs",
            " * `baz`: this has",
            "    two lines of docs",
            "",
            " this goes after the arguments section",
        ])
    );
    assert_eq!(attr_docs(&item.generics[0].attrs), 1);
}

#[test]
fn shift_up_single_parameter_goes_to_function() {
    let mut args = vec![param("only", docs(&[" about the function", " more"]))];
    let (docs0, items) = extract_documented_parameters_shift_up(&mut args);
    assert_eq!(docs0, Some(strings(&[" about the function", " more"])));
    assert!(items.is_empty());
}

#[test]
fn shift_up_escape_marker_splits_last() {
    let mut args = vec![
        param("image_data", docs(&[" about the function"])),
        param("nrows", docs(&[" about image_data"])),
        param("ncols", docs(&[" about nrows", "! about ncols", "! still ncols"])),
    ];
    let (docs0, items) = extract_documented_parameters_shift_up(&mut args);
    assert_eq!(docs0, Some(strings(&[" about the function"])));
    let got: Vec<(String, Vec<String>)> = items.into_iter().map(|d| (d.ident, d.docs)).collect();
    assert_eq!(
        got,
        vec![
            ("image_data".to_string(), strings(&[" about image_data"])),
            ("nrows".to_string(), strings(&[" about nrows"])),
            ("ncols".to_string(), strings(&[" about ncols", "! still ncols"])),
        ]
    );
}

#[test]
fn shift_up_two_lines_plain_then_escaped() {
    let mut args = vec![
        param("a", vec![]),
        param("b", docs(&["plain", "!escaped"])),
    ];
    let (docs0, items) = extract_documented_parameters_shift_up(&mut args);
    assert_eq!(docs0, None);
    let got: Vec<(String, Vec<String>)> = items.into_iter().map(|d| (d.ident, d.docs)).collect();
    assert_eq!(
        got,
        vec![("a".to_string(), strings(&["plain"])), ("b".to_string(), strings(&["escaped"]))]
    );
}

#[test]
fn shift_up_escaped_first_line_leaves_previous_undocumented() {
    let mut args = vec![FnArg::Receiver, param("a", vec![]), param("b", docs(&["!all for b"]))];
    let (docs0, items) = extract_documented_parameters_shift_up(&mut args);
    assert_eq!(docs0, None);
    assert_eq!(items.len(), 1);
    assert_eq!(items[0].ident, "b");
    assert_eq!(items[0].docs, strings(&["all for b"]));
}

#[test]
fn shift_up_middle_parameter_without_documented_predecessor() {
    let mut args = vec![
        param("a", vec![]),
        param("b", docs(&[" about a"])),
        param("c", vec![]),
        param("d", vec![]),
    ];
    let (docs0, items) = extract_documented_parameters_shift_up(&mut args);
    assert_eq!(docs0, None);
    assert_eq!(items.len(), 1);
    assert_eq!(items[0].ident, "a");
    assert_eq!(items[0].docs, strings(&[" about a"]));
}

#[test]
fn shift_up_duplicate_marker_fails() {
    let mut item = ItemFn {
        attrs: vec![section(1), section(2)],
        inputs: vec![param("a", docs(&[" x"]))],
        generics: vec![],
    };
    assert_eq!(argdocpos(&mut item), Err(RoxygenError::DuplicateSection(2)));
}
