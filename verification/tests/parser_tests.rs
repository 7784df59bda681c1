use cpy_binder::model::{TypeDecl, TypeRef, Variant};
use cpy_binder::parser::{parse_flat, parse_module, Construct};
use cpy_binder::token::Tok;

fn ident(s: &str) -> Tok {
    Tok::Ident(s.to_string())
}

fn strlit(s: &str) -> Tok {
    Tok::StrLit(s.to_string())
}

/// module wheels { enum Material { Plastic, Rubber, } struct Size2D {
/// width: float64, height: float64, } fn noop() {} }
fn wheels_tokens() -> Vec<Tok> {
    vec![
        Tok::KwModule,
        ident("wheels"),
        Tok::LBrace,
        Tok::KwComment,
        Tok::Eq,
        strlit("Material types"),
        Tok::KwEnum,
        ident("Material"),
        Tok::LBrace,
        ident("Plastic"),
        Tok::Comma,
        ident("Rubber"),
        Tok::Comma,
        Tok::RBrace,
        Tok::KwComment,
        Tok::Eq,
        strlit("2D Size"),
        Tok::KwStruct,
        ident("Size2D"),
        Tok::LBrace,
        ident("width"),
        Tok::Colon,
        ident("float64"),
        Tok::Comma,
        ident("height"),
        Tok::Colon,
        ident("float64"),
        Tok::Comma,
        Tok::RBrace,
        Tok::KwFn,
        ident("noop"),
        Tok::LParen,
        Tok::RParen,
        Tok::Body(String::new()),
        Tok::RBrace,
    ]
}

#[test]
fn nested_module_parses() {
    let m = parse_module(&wheels_tokens()).unwrap();
    assert_eq!(m.name, "wheels");
    assert_eq!(m.types.len(), 2);
    assert_eq!(m.functions.len(), 1);
    match &m.types[0] {
        TypeDecl::Enum(e) => {
            assert_eq!(e.name, "Material");
            assert_eq!(e.variants, vec!["Plastic".to_string(), "Rubber".to_string()]);
            assert_eq!(e.doc, "Material types");
        }
        _ => panic!("first declaration should be the enum"),
    }
    match &m.types[1] {
        TypeDecl::Struct(s) => {
            assert_eq!(s.name, "Size2D");
            assert_eq!(s.fields.len(), 2);
            assert_eq!(s.fields[0].name, "width");
            assert_eq!(s.fields[1].name, "height");
            assert!(matches!(&s.fields[0].ty, TypeRef::Name(n) if n == "float64"));
            assert_eq!(s.doc, "2D Size");
        }
        _ => panic!("second declaration should be the struct"),
    }
    let f = &m.functions[0];
    assert_eq!(f.name, "noop");
    assert!(matches!(f.variant, Variant::Shared));
    assert!(f.params.is_empty());
    assert!(f.ret.is_none());
    assert_eq!(f.doc_c, "No documentation");
    assert_eq!(f.doc_py, "No documentation");
}

#[test]
fn fn_kinds_classify_variants() {
    let toks = vec![
        Tok::KwModule,
        ident("m"),
        Tok::LBrace,
        Tok::KwFnC,
        ident("calc_c"),
        Tok::LParen,
        ident("a"),
        Tok::Colon,
        ident("uint8"),
        Tok::RParen,
        Tok::Arrow,
        ident("uint8"),
        Tok::Body("a + 1".to_string()),
        Tok::KwFnPy,
        ident("calc_py"),
        Tok::LParen,
        ident("a"),
        Tok::Colon,
        ident("uint8"),
        Tok::RParen,
        Tok::Arrow,
        ident("uint8"),
        Tok::Body("a + 1".to_string()),
        Tok::RBrace,
    ];
    let m = parse_module(&toks).unwrap();
    assert_eq!(m.functions.len(), 2);
    assert!(matches!(m.functions[0].variant, Variant::COnly));
    assert!(matches!(m.functions[1].variant, Variant::PyOnly));
    assert_eq!(m.functions[0].name, "calc_c");
    assert!(matches!(&m.functions[0].ret, Some(TypeRef::Name(n)) if n == "uint8"));
    assert_eq!(m.functions[0].body, "a + 1");
}

#[test]
fn array_type_reference_parses() {
    let toks = vec![
        Tok::KwModule,
        ident("m"),
        Tok::LBrace,
        Tok::KwFn,
        ident("format_wheel_identifier"),
        Tok::LParen,
        ident("dimensions"),
        Tok::Colon,
        Tok::LBracket,
        ident("uint8"),
        Tok::Semi,
        Tok::IntLit(3),
        Tok::RBracket,
        Tok::RParen,
        Tok::Body(String::new()),
        Tok::RBrace,
    ];
    let m = parse_module(&toks).unwrap();
    let f = &m.functions[0];
    assert_eq!(f.params.len(), 1);
    assert!(matches!(&f.params[0].ty, TypeRef::Array(n, 3) if n == "uint8"));
}

#[test]
fn unknown_item_keyword_is_rejected() {
    let toks = vec![
        Tok::KwModule,
        ident("m"),
        Tok::LBrace,
        ident("widget"),
        Tok::RBrace,
    ];
    let err = parse_module(&toks).unwrap_err();
    assert_eq!(err.at, 3);
    assert!(matches!(err.expected, Construct::Item));
}

#[test]
fn mismatched_bracket_is_rejected() {
    let toks = vec![
        Tok::KwModule,
        ident("m"),
        Tok::LBrace,
        Tok::KwEnum,
        ident("E"),
        Tok::LBrace,
        ident("A"),
        // no closing brace for the enum, nor for the module
    ];
    let err = parse_module(&toks).unwrap_err();
    assert_eq!(err.at, toks.len());
}

#[test]
fn missing_attribute_value_is_rejected() {
    let toks = vec![
        Tok::KwModule,
        ident("m"),
        Tok::LBrace,
        Tok::KwComment,
        Tok::KwEnum,
        ident("E"),
        Tok::LBrace,
        ident("A"),
        Tok::RBrace,
        Tok::RBrace,
    ];
    let err = parse_module(&toks).unwrap_err();
    assert_eq!(err.at, 3);
    assert!(matches!(err.expected, Construct::Attribute));
}

#[test]
fn empty_module_parses() {
    let toks = vec![Tok::KwModule, ident("empty"), Tok::LBrace, Tok::RBrace];
    let m = parse_module(&toks).unwrap();
    assert_eq!(m.name, "empty");
    assert!(m.types.is_empty());
    assert!(m.functions.is_empty());
}

/// name = example, types = [Material, Size2D, Tire], functions = [
/// create_random_tire, wheel_size_aspect ]
fn flat_tokens() -> Vec<Tok> {
    vec![
        ident("name"),
        Tok::Eq,
        ident("example"),
        Tok::Comma,
        ident("types"),
        Tok::Eq,
        Tok::LBracket,
        ident("Material"),
        Tok::Comma,
        ident("Size2D"),
        Tok::Comma,
        ident("Tire"),
        Tok::RBracket,
        Tok::Comma,
        ident("functions"),
        Tok::Eq,
        Tok::LBracket,
        ident("create_random_tire"),
        Tok::Comma,
        ident("wheel_size_aspect"),
        Tok::RBracket,
    ]
}

#[test]
fn flat_form_parses() {
    let refs = parse_flat(&flat_tokens()).unwrap();
    assert_eq!(refs.name, "example");
    assert_eq!(
        refs.types,
        vec!["Material".to_string(), "Size2D".to_string(), "Tire".to_string()]
    );
    assert_eq!(
        refs.functions,
        vec!["create_random_tire".to_string(), "wheel_size_aspect".to_string()]
    );
}

#[test]
fn flat_form_allows_trailing_comma_and_empty_lists() {
    let toks = vec![
        ident("name"),
        Tok::Eq,
        ident("m"),
        Tok::Comma,
        ident("types"),
        Tok::Eq,
        Tok::LBracket,
        ident("A"),
        Tok::Comma,
        Tok::RBracket,
        Tok::Comma,
        ident("functions"),
        Tok::Eq,
        Tok::LBracket,
        Tok::RBracket,
    ];
    let refs = parse_flat(&toks).unwrap();
    assert_eq!(refs.types, vec!["A".to_string()]);
    assert!(refs.functions.is_empty());
}

#[test]
fn flat_form_wrong_keys_are_rejected() {
    let mut toks = flat_tokens();
    toks[0] = ident("alpha");
    let err = parse_flat(&toks).unwrap_err();
    assert_eq!(err.at, 0);
    assert!(matches!(err.expected, Construct::FlatModule));

    let mut toks = flat_tokens();
    toks[4] = ident("beta");
    let err = parse_flat(&toks).unwrap_err();
    assert_eq!(err.at, 4);

    let mut toks = flat_tokens();
    toks[14] = ident("gamma");
    assert!(parse_flat(&toks).is_err());
}

#[test]
fn flat_form_missing_list_is_rejected() {
    let toks = vec![ident("name"), Tok::Eq, ident("m")];
    assert!(parse_flat(&toks).is_err());
}

#[test]
fn trailing_tokens_after_module_are_rejected() {
    let mut toks = wheels_tokens();
    toks.push(Tok::Comma);
    let err = parse_module(&toks).unwrap_err();
    assert_eq!(err.at, toks.len() - 1);
    assert!(matches!(err.expected, Construct::EndOfInput));
}
