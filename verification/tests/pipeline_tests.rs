use cpy_binder::pipeline::{compile_module, validate_symbols, BuildError};
use cpy_binder::registrar::{cpy_module, RegEntry};
use cpy_binder::parser::parse_module;
use cpy_binder::token::Tok;

fn ident(s: &str) -> Tok {
    Tok::Ident(s.to_string())
}

fn strlit(s: &str) -> Tok {
    Tok::StrLit(s.to_string())
}

/// A schema with two types and three functions, one per variant:
///
/// module wheels {
///     enum Material { Plastic, Rubber, }
///     struct Size2D { width: float64, height: float64, }
///     fn create_tire() -> Tire { ... }
///     fn_c format_sizes_c(count: uint64) { ... }
///     fn_py format_sizes_py(count: uint64) { ... }
/// }
fn wheels_tokens() -> Vec<Tok> {
    vec![
        Tok::KwModule,
        ident("wheels"),
        Tok::LBrace,
        Tok::KwComment,
        Tok::Eq,
        strlit("Material types"),
        Tok::KwEnum,
        ident("Material"),
        Tok::LBrace,
        ident("Plastic"),
        Tok::Comma,
        ident("Rubber"),
        Tok::RBrace,
        Tok::KwStruct,
        ident("Size2D"),
        Tok::LBrace,
        ident("width"),
        Tok::Colon,
        ident("float64"),
        Tok::Comma,
        ident("height"),
        Tok::Colon,
        ident("float64"),
        Tok::Comma,
        Tok::RBrace,
        Tok::KwFn,
        ident("create_tire"),
        Tok::LParen,
        Tok::RParen,
        Tok::Arrow,
        ident("Tire"),
        Tok::Body("...".to_string()),
        Tok::KwFnC,
        ident("format_sizes_c"),
        Tok::LParen,
        ident("count"),
        Tok::Colon,
        ident("uint64"),
        Tok::RParen,
        Tok::Body("...".to_string()),
        Tok::KwFnPy,
        ident("format_sizes_py"),
        Tok::LParen,
        ident("count"),
        Tok::Colon,
        ident("uint64"),
        Tok::RParen,
        Tok::Body("...".to_string()),
        Tok::RBrace,
    ]
}

#[test]
fn c_only_build_emits_no_registration() {
    let emission = compile_module(&wheels_tokens(), false).unwrap();
    assert!(emission.registration.is_none());
    assert_eq!(emission.types.len(), 2);
    assert_eq!(emission.functions.len(), 3);
    // the C surface exposes Shared + COnly, never PyOnly
    let c_exposed: Vec<&str> = emission
        .functions
        .iter()
        .filter(|f| f.c_entry.is_some())
        .map(|f| f.symbol.as_str())
        .collect();
    assert_eq!(c_exposed, vec!["create_tire", "format_sizes"]);
    assert!(emission.functions.iter().all(|f| f.py_entry.is_none()));
}

#[test]
fn dynamic_build_registers_types_then_callables_in_order() {
    let emission = compile_module(&wheels_tokens(), true).unwrap();
    let table = emission.registration.expect("dynamic build has a registration table");
    // N = 2 classes, then the dynamic-active functions (Shared + PyOnly)
    assert_eq!(table.len(), 4);
    match &table[0] {
        RegEntry::Class(n) => assert_eq!(n, "Material"),
        _ => panic!("registration starts with the classes"),
    }
    match &table[1] {
        RegEntry::Class(n) => assert_eq!(n, "Size2D"),
        _ => panic!("registration keeps declaration order"),
    }
    match &table[2] {
        RegEntry::Callable(n) => assert_eq!(n, "create_tire"),
        _ => panic!("callables follow the classes"),
    }
    match &table[3] {
        RegEntry::Callable(n) => assert_eq!(n, "format_sizes"),
        _ => panic!("the dynamic-exclusive function is registered post-strip"),
    }
}

#[test]
fn dynamic_build_drops_c_exclusive_functions() {
    let emission = compile_module(&wheels_tokens(), true).unwrap();
    let c_half = emission
        .functions
        .iter()
        .find(|f| f.symbol == "format_sizes" && f.c_entry.is_none() && f.py_entry.is_none());
    assert!(c_half.is_some(), "the fn_c declaration is absent from a dynamic build");
}

#[test]
fn syntax_error_aborts_compilation() {
    let toks = vec![Tok::KwModule, ident("m"), Tok::LBrace, Tok::Comma, Tok::RBrace];
    match compile_module(&toks, true) {
        Err(BuildError::Syntax(e)) => assert_eq!(e.at, 3),
        _ => panic!("a malformed schema is a syntax error"),
    }
}

fn one_fn(kind: Tok, name: &str) -> Vec<Tok> {
    vec![
        kind,
        ident(name),
        Tok::LParen,
        Tok::RParen,
        Tok::Body(String::new()),
    ]
}

fn module_of_fns(decls: &[(Tok, &str)]) -> Vec<Tok> {
    let mut toks = vec![Tok::KwModule, ident("m"), Tok::LBrace];
    for (kind, name) in decls {
        toks.extend(one_fn(kind.clone(), name));
    }
    toks.push(Tok::RBrace);
    toks
}

#[test]
fn duplicate_shared_symbol_is_fatal() {
    let toks = module_of_fns(&[(Tok::KwFn, "run"), (Tok::KwFn, "run")]);
    match compile_module(&toks, false) {
        Err(BuildError::Duplicate(d)) => assert_eq!(d.symbol, "run"),
        _ => panic!("two shared declarations of one symbol must be rejected"),
    }
}

#[test]
fn exclusive_pair_is_legitimate() {
    let toks = module_of_fns(&[(Tok::KwFnC, "run_c"), (Tok::KwFnPy, "run_py")]);
    assert!(compile_module(&toks, false).is_ok());
    assert!(compile_module(&toks, true).is_ok());
}

#[test]
fn shared_colliding_with_c_exclusive_is_fatal() {
    let toks = module_of_fns(&[(Tok::KwFn, "run"), (Tok::KwFnC, "run_c")]);
    match compile_module(&toks, false) {
        Err(BuildError::Duplicate(d)) => assert_eq!(d.symbol, "run"),
        _ => panic!("a shared symbol colliding with a post-strip name must be rejected"),
    }
}

#[test]
fn duplicate_type_name_is_fatal() {
    let toks = vec![
        Tok::KwModule,
        ident("m"),
        Tok::LBrace,
        Tok::KwEnum,
        ident("T"),
        Tok::LBrace,
        ident("A"),
        Tok::RBrace,
        Tok::KwStruct,
        ident("T"),
        Tok::LBrace,
        Tok::RBrace,
        Tok::RBrace,
    ];
    assert!(matches!(compile_module(&toks, false), Err(BuildError::Duplicate(_))));
}

#[test]
fn validate_accepts_distinct_symbols() {
    let m = parse_module(&wheels_tokens()).unwrap();
    assert!(validate_symbols(&m).is_ok());
}

fn flat_tokens() -> Vec<Tok> {
    vec![
        ident("name"),
        Tok::Eq,
        ident("example"),
        Tok::Comma,
        ident("types"),
        Tok::Eq,
        Tok::LBracket,
        ident("Material"),
        Tok::Comma,
        ident("Size2D"),
        Tok::RBracket,
        Tok::Comma,
        ident("functions"),
        Tok::Eq,
        Tok::LBracket,
        ident("create_random_tire"),
        Tok::Comma,
        ident("wheel_size_aspect"),
        Tok::RBracket,
    ]
}

#[test]
fn flat_registration_keeps_listed_order() {
    let table = cpy_module(&flat_tokens(), true)
        .unwrap()
        .expect("dynamic build emits the registration");
    assert_eq!(table.len(), 4);
    assert!(matches!(&table[0], RegEntry::Class(n) if n == "Material"));
    assert!(matches!(&table[1], RegEntry::Class(n) if n == "Size2D"));
    assert!(matches!(&table[2], RegEntry::Callable(n) if n == "create_random_tire"));
    assert!(matches!(&table[3], RegEntry::Callable(n) if n == "wheel_size_aspect"));
}

#[test]
fn flat_registration_disabled_emits_nothing() {
    assert!(cpy_module(&flat_tokens(), false).unwrap().is_none());
}

#[test]
fn flat_registration_rejects_malformed_input() {
    let toks = vec![ident("name"), Tok::Eq, ident("example")];
    assert!(cpy_module(&toks, true).is_err());
}
