//! Schema tokens.
//!
//! The parser consumes the schema as a sequence of tokens, the way the
//! host language hands a macro its input.  Keywords are classified
//! tokens of their own; a function body is a single opaque token whose
//! payload is carried through emission verbatim.

use vstd::prelude::*;

verus! {

/// One schema token.
#[derive(Clone, Debug)]
pub enum Tok {
    KwModule,
    KwEnum,
    KwStruct,
    KwFn,
    KwFnC,
    KwFnPy,
    KwComment,
    KwCommentC,
    KwCommentPy,
    Ident(String),
    StrLit(String),
    IntLit(usize),
    Eq,
    Comma,
    Colon,
    Semi,
    Arrow,
    LParen,
    RParen,
    LBracket,
    RBracket,
    LBrace,
    RBrace,
    Body(String),
}

/// Mathematical view of a [`Tok`].
pub enum TokV {
    KwModule,
    KwEnum,
    KwStruct,
    KwFn,
    KwFnC,
    KwFnPy,
    KwComment,
    KwCommentC,
    KwCommentPy,
    Ident(Seq<char>),
    StrLit(Seq<char>),
    IntLit(nat),
    Eq,
    Comma,
    Colon,
    Semi,
    Arrow,
    LParen,
    RParen,
    LBracket,
    RBracket,
    LBrace,
    RBrace,
    Body(Seq<char>),
}

impl View for Tok {
    type V = TokV;

    open spec fn view(&self) -> TokV {
        match self {
            Tok::KwModule => TokV::KwModule,
            Tok::KwEnum => TokV::KwEnum,
            Tok::KwStruct => TokV::KwStruct,
            Tok::KwFn => TokV::KwFn,
            Tok::KwFnC => TokV::KwFnC,
            Tok::KwFnPy => TokV::KwFnPy,
            Tok::KwComment => TokV::KwComment,
            Tok::KwCommentC => TokV::KwCommentC,
            Tok::KwCommentPy => TokV::KwCommentPy,
            Tok::Ident(s) => TokV::Ident(s@),
            Tok::StrLit(s) => TokV::StrLit(s@),
            Tok::IntLit(n) => TokV::IntLit(*n as nat),
            Tok::Eq => TokV::Eq,
            Tok::Comma => TokV::Comma,
            Tok::Colon => TokV::Colon,
            Tok::Semi => TokV::Semi,
            Tok::Arrow => TokV::Arrow,
            Tok::LParen => TokV::LParen,
            Tok::RParen => TokV::RParen,
            Tok::LBracket => TokV::LBracket,
            Tok::RBracket => TokV::RBracket,
            Tok::LBrace => TokV::LBrace,
            Tok::RBrace => TokV::RBrace,
            Tok::Body(s) => TokV::Body(s@),
        }
    }
}

/// View of a whole token sequence.
pub open spec fn tokens_view(toks: Seq<Tok>) -> Seq<TokV> {
    toks.map_values(|t: Tok| t@)
}

} // verus!
