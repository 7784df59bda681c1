use cpy_binder::emit::{cpy_enum, cpy_struct, Layout};
use cpy_binder::lex::tokenize;
use cpy_binder::registrar::{cpy_module, RegEntry};
use cpy_binder::token::Tok;

#[test]
fn keywords_identifiers_and_punctuation() {
    let toks = tokenize("module wheels { enum struct fn fn_c fn_py comment , }").unwrap();
    assert_eq!(toks.len(), 11);
    assert!(matches!(toks[0], Tok::KwModule));
    assert!(matches!(&toks[1], Tok::Ident(n) if n == "wheels"));
    assert!(matches!(toks[2], Tok::LBrace));
    assert!(matches!(toks[3], Tok::KwEnum));
    assert!(matches!(toks[4], Tok::KwStruct));
    assert!(matches!(toks[5], Tok::KwFn));
    assert!(matches!(toks[6], Tok::KwFnC));
    assert!(matches!(toks[7], Tok::KwFnPy));
    assert!(matches!(toks[8], Tok::KwComment));
    assert!(matches!(toks[9], Tok::Comma));
    assert!(matches!(toks[10], Tok::RBrace));
}

#[test]
fn string_and_integer_literals() {
    let toks = tokenize("comment = \"A point\" [ uint8 ; 37 ]").unwrap();
    assert!(matches!(toks[0], Tok::KwComment));
    assert!(matches!(toks[1], Tok::Eq));
    assert!(matches!(&toks[2], Tok::StrLit(v) if v == "A point"));
    assert!(matches!(toks[3], Tok::LBracket));
    assert!(matches!(&toks[4], Tok::Ident(n) if n == "uint8"));
    assert!(matches!(toks[5], Tok::Semi));
    assert!(matches!(toks[6], Tok::IntLit(37)));
    assert!(matches!(toks[7], Tok::RBracket));
}

#[test]
fn arrow_and_empty_string() {
    let toks = tokenize("-> \"\"").unwrap();
    assert!(matches!(toks[0], Tok::Arrow));
    assert!(matches!(&toks[1], Tok::StrLit(v) if v.is_empty()));
}

#[test]
fn keyword_prefix_is_an_identifier() {
    let toks = tokenize("fn_cx comments modules").unwrap();
    assert!(matches!(&toks[0], Tok::Ident(n) if n == "fn_cx"));
    assert!(matches!(&toks[1], Tok::Ident(n) if n == "comments"));
    assert!(matches!(&toks[2], Tok::Ident(n) if n == "modules"));
}

#[test]
fn empty_and_blank_text_lex_to_nothing() {
    assert!(tokenize("").unwrap().is_empty());
    assert!(tokenize(" \t\r\n ").unwrap().is_empty());
}

#[test]
fn stray_character_is_reported() {
    let err = tokenize("name = ex%ample").unwrap_err();
    assert_eq!(err.at, 9);
}

#[test]
fn unterminated_string_is_reported() {
    let text = "comment = \"never closed";
    let err = tokenize(text).unwrap_err();
    assert_eq!(err.at, text.chars().count());
}

#[test]
fn lone_dash_is_reported() {
    assert!(tokenize("a - b").is_err());
}

#[test]
fn oversized_integer_is_reported() {
    assert!(tokenize("99999999999999999999999999999999999999").is_err());
}

#[test]
fn flat_module_from_text_to_registration() {
    let text = "name = example, types = [Material, Size2D, Tire], \
                functions = [create_random_tire, wheel_size_aspect]";
    let toks = tokenize(text).unwrap();
    let table = cpy_module(&toks, true).unwrap().unwrap();
    assert_eq!(table.len(), 5);
    assert!(matches!(&table[0], RegEntry::Class(n) if n == "Material"));
    assert!(matches!(&table[1], RegEntry::Class(n) if n == "Size2D"));
    assert!(matches!(&table[2], RegEntry::Class(n) if n == "Tire"));
    assert!(matches!(&table[3], RegEntry::Callable(n) if n == "create_random_tire"));
    assert!(matches!(&table[4], RegEntry::Callable(n) if n == "wheel_size_aspect"));
}

#[test]
fn enum_declaration_from_text() {
    let text = "comment = \"Material types\" enum Material { Plastic, Rubber, }";
    let toks = tokenize(text).unwrap();
    let e = cpy_enum(&toks, false).unwrap();
    assert_eq!(e.name, "Material");
    assert_eq!(e.doc, "Material types");
    match &e.layout {
        Layout::Tag(variants) => {
            assert_eq!(variants, &vec!["Plastic".to_string(), "Rubber".to_string()])
        }
        _ => panic!("an enum emits a tag layout"),
    }
}

#[test]
fn struct_declaration_from_text() {
    let text = "comment = \"2D Size\" struct Size2D { width: float64, height: float64, }";
    let toks = tokenize(text).unwrap();
    let e = cpy_struct(&toks, true).unwrap();
    assert_eq!(e.name, "Size2D");
    assert_eq!(e.doc, "2D Size");
    let class = e.class.unwrap();
    assert_eq!(class.accessors, vec!["width".to_string(), "height".to_string()]);
}
