use cpy_binder::emit::{cpy_enum, cpy_fn, cpy_fn_c, cpy_fn_py, cpy_struct, Layout};
use cpy_binder::token::Tok;

fn ident(s: &str) -> Tok {
    Tok::Ident(s.to_string())
}

fn strlit(s: &str) -> Tok {
    Tok::StrLit(s.to_string())
}

/// comment = "A point" struct Point { x: float64, y: float64, }
fn point_tokens() -> Vec<Tok> {
    vec![
        Tok::KwComment,
        Tok::Eq,
        strlit("A point"),
        Tok::KwStruct,
        ident("Point"),
        Tok::LBrace,
        ident("x"),
        Tok::Colon,
        ident("float64"),
        Tok::Comma,
        ident("y"),
        Tok::Colon,
        ident("float64"),
        Tok::Comma,
        Tok::RBrace,
    ]
}

#[test]
fn struct_emission_c_only() {
    let e = cpy_struct(&point_tokens(), false).unwrap();
    assert_eq!(e.name, "Point");
    assert_eq!(e.doc, "A point");
    match &e.layout {
        Layout::Record(fields) => {
            assert_eq!(fields.len(), 2);
            assert_eq!(fields[0].name, "x");
            assert_eq!(fields[1].name, "y");
        }
        _ => panic!("a struct emits a record layout"),
    }
    assert!(e.class.is_none());
}

#[test]
fn struct_emission_dynamic_adds_accessors() {
    let e = cpy_struct(&point_tokens(), true).unwrap();
    assert_eq!(e.name, "Point");
    assert_eq!(e.doc, "A point");
    let class = e.class.expect("dynamic build emits the class binding");
    assert_eq!(class.accessors, vec!["x".to_string(), "y".to_string()]);
    assert!(class.has_clone);
    assert!(class.has_debug);
}

/// comment = "Material types" enum Material { Plastic, Rubber, }
fn material_tokens() -> Vec<Tok> {
    vec![
        Tok::KwComment,
        Tok::Eq,
        strlit("Material types"),
        Tok::KwEnum,
        ident("Material"),
        Tok::LBrace,
        ident("Plastic"),
        Tok::Comma,
        ident("Rubber"),
        Tok::Comma,
        Tok::RBrace,
    ]
}

#[test]
fn enum_emission_is_a_tag_enumeration() {
    let e = cpy_enum(&material_tokens(), false).unwrap();
    assert_eq!(e.name, "Material");
    assert_eq!(e.doc, "Material types");
    match &e.layout {
        Layout::Tag(variants) => {
            assert_eq!(variants, &vec!["Plastic".to_string(), "Rubber".to_string()]);
        }
        _ => panic!("an enum emits a tag layout"),
    }
    assert!(e.class.is_none());
    let dynamic = cpy_enum(&material_tokens(), true).unwrap();
    let class = dynamic.class.expect("dynamic build registers the class");
    assert!(class.accessors.is_empty());
}

#[test]
fn enum_keyword_is_not_a_struct() {
    assert!(cpy_struct(&material_tokens(), false).is_err());
    assert!(cpy_enum(&point_tokens(), false).is_err());
}

fn calc_c_tokens() -> Vec<Tok> {
    vec![
        Tok::KwFnC,
        ident("calc_c"),
        Tok::LParen,
        ident("a"),
        Tok::Colon,
        ident("uint8"),
        Tok::RParen,
        Tok::Arrow,
        ident("uint8"),
        Tok::Body("a + 1".to_string()),
    ]
}

fn calc_py_tokens() -> Vec<Tok> {
    vec![
        Tok::KwFnPy,
        ident("calc_py"),
        Tok::LParen,
        ident("a"),
        Tok::Colon,
        ident("uint8"),
        Tok::RParen,
        Tok::Arrow,
        ident("uint8"),
        Tok::Body("a + 1".to_string()),
    ]
}

#[test]
fn exclusive_pair_exports_one_symbol_per_build() {
    // c-only build: only the C half exists, foreign-linked as `calc`
    let c_half = cpy_fn_c(&calc_c_tokens(), false).unwrap();
    assert_eq!(c_half.symbol, "calc");
    assert!(c_half.c_entry.is_some());
    assert!(c_half.py_entry.is_none());
    let py_half = cpy_fn_py(&calc_py_tokens(), false).unwrap();
    assert_eq!(py_half.symbol, "calc");
    assert!(py_half.c_entry.is_none());
    assert!(py_half.py_entry.is_none());

    // dynamic-enabled build: only the Python half exists, callable as `calc`
    let c_half_dyn = cpy_fn_c(&calc_c_tokens(), true).unwrap();
    assert!(c_half_dyn.c_entry.is_none());
    assert!(c_half_dyn.py_entry.is_none());
    let py_half_dyn = cpy_fn_py(&calc_py_tokens(), true).unwrap();
    assert_eq!(py_half_dyn.symbol, "calc");
    assert!(py_half_dyn.c_entry.is_none());
    assert!(py_half_dyn.py_entry.is_some());
}

#[test]
fn fn_kind_must_match_entry_point() {
    assert!(cpy_fn(&calc_c_tokens(), false).is_err());
    assert!(cpy_fn_c(&calc_py_tokens(), false).is_err());
    assert!(cpy_fn_py(&calc_c_tokens(), false).is_err());
}

fn noop_tokens() -> Vec<Tok> {
    vec![
        Tok::KwFn,
        ident("noop"),
        Tok::LParen,
        Tok::RParen,
        Tok::Body(String::new()),
    ]
}

#[test]
fn shared_function_without_attributes() {
    // c-only build: one foreign-linked entry point, default documentation
    let c_build = cpy_fn(&noop_tokens(), false).unwrap();
    assert_eq!(c_build.symbol, "noop");
    assert_eq!(c_build.c_entry.as_deref(), Some("No documentation"));
    assert!(c_build.py_entry.is_none());

    // dynamic-enabled build: both entry points on one implementation
    let dyn_build = cpy_fn(&noop_tokens(), true).unwrap();
    assert_eq!(dyn_build.symbol, "noop");
    assert_eq!(dyn_build.c_entry.as_deref(), Some("No documentation"));
    assert_eq!(dyn_build.py_entry.as_deref(), Some("No documentation"));
}

#[test]
fn per_target_documentation_lands_on_its_entry() {
    let toks = vec![
        Tok::KwCommentC,
        Tok::Eq,
        strlit("@brief Aspect ratio."),
        Tok::KwCommentPy,
        Tok::Eq,
        strlit("Aspect ratio of a wheel."),
        Tok::KwFn,
        ident("wheel_size_aspect"),
        Tok::LParen,
        ident("height"),
        Tok::Colon,
        ident("float32"),
        Tok::Comma,
        ident("width"),
        Tok::Colon,
        ident("float32"),
        Tok::RParen,
        Tok::Arrow,
        ident("float32"),
        Tok::Body("(height / width) * 100.0".to_string()),
    ];
    let e = cpy_fn(&toks, true).unwrap();
    assert_eq!(e.symbol, "wheel_size_aspect");
    assert_eq!(e.c_entry.as_deref(), Some("@brief Aspect ratio."));
    assert_eq!(e.py_entry.as_deref(), Some("Aspect ratio of a wheel."));
    assert_eq!(e.params.len(), 2);
    assert_eq!(e.body, "(height / width) * 100.0");
}

#[test]
fn leftover_tokens_are_rejected() {
    let mut toks = noop_tokens();
    toks.push(Tok::Comma);
    assert!(cpy_fn(&toks, false).is_err());
}
