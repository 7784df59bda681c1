//! The schema parser.
//!
//! Two equivalent surface syntaxes produce the one underlying model: the
//! nested block form `module <name> { <item>* }`, whose items are enum,
//! struct and function declarations with optional documentation
//! attributes; and the flat form `name = <ident>, types = [..],
//! functions = [..]`, which references already-declared items by name.
//!
//! The grammar, over tokens:
//!
//! ```text
//! module     := "module" name "{" item* "}"
//! item       := attr* (enumDecl | structDecl | fnDecl)
//! attr       := ("comment" | "comment_c" | "comment_py") "=" STRING
//! enumDecl   := "enum" name "{" variant ("," variant)* ","? "}"
//! structDecl := "struct" name "{" (field ":" type ",")* "}"
//! fnDecl     := ("fn" | "fn_c" | "fn_py") name "(" (param ":" type ","?)* ")"
//!               ("->" type)? BODY
//! type       := name | "[" name ";" INT "]"
//! flat       := "name" "=" name "," "types" "=" "[" idents "]" ","
//!               "functions" "=" "[" idents "]"
//! idents     := (name ("," name)* ","?)?
//! ```
//!
//! Parsing fails with a [`SchemaSyntaxError`] holding the index of the
//! token at which matching went wrong.  The parser resolves each
//! item's documentation attributes while building the declaration; it
//! performs no type checking, which is the host compiler's task.
//!
//! Each `parse_*` function is proved equal to the corresponding `sp_*`
//! specification function, which defines the grammar mathematically,
//! and each reported error position to the corresponding `sp_*_err`
//! companion function.

use vstd::prelude::*;
use crate::docs::{attrs_view, get_comment, get_comments, spec_resolve_doc, spec_resolve_docs, Attr,
    AttrKey, AttrV};
use crate::model::{EnumDecl, EnumDeclV, Field, FieldV, FunctionDecl, FunctionDeclV, ModuleRefs,
    ModuleRefsV, ModuleSpec, ModuleSpecV, StructDecl, StructDeclV, TypeDecl, TypeDeclV, TypeRef,
    TypeRefV, Variant};
use crate::token::{tokens_view, Tok, TokV};

verus! {

/// The grammar production a failed parse was trying to match.
#[derive(Clone, Copy, Debug, PartialEq, Eq, Structural)]
pub enum Construct {
    ModuleHeader,
    FlatModule,
    Item,
    Attribute,
    EnumDecl,
    StructDecl,
    FnDecl,
    TypeRef,
    EndOfInput,
}

/// A schema syntax failure: `at` is the index of the token at which
/// matching went wrong (the token count, when the input ended too
/// early), as the `sp_*_err` companion functions state it; `expected`
/// names the construct being matched there (diagnostic, not part of
/// the proved contracts).
#[derive(Clone, Copy, Debug, PartialEq, Eq, Structural)]
pub struct SchemaSyntaxError {
    pub at: usize,
    pub expected: Construct,
}

/// One parsed item of the nested form: a type or a function declaration.
#[derive(Clone, Debug)]
pub enum Item {
    Ty(TypeDecl),
    Fun(FunctionDecl),
}

/// Mathematical view of an [`Item`].
pub enum ItemV {
    Ty(TypeDeclV),
    Fun(FunctionDeclV),
}

impl View for Item {
    type V = ItemV;

    open spec fn view(&self) -> ItemV {
        match self {
            Item::Ty(t) => ItemV::Ty(t@),
            Item::Fun(f) => ItemV::Fun(f@),
        }
    }
}

/// Whether a token is a documentation-attribute keyword.
pub open spec fn is_attr_kw(t: TokV) -> bool {
    t is KwComment || t is KwCommentC || t is KwCommentPy
}

/// The attribute key a keyword token stands for.
pub open spec fn attr_key(t: TokV) -> AttrKey
    recommends
        is_attr_kw(t),
{
    match t {
        TokV::KwCommentC => AttrKey::CommentC,
        TokV::KwCommentPy => AttrKey::CommentPy,
        _ => AttrKey::Comment,
    }
}

/// Whether a token is a function-declaration keyword.
pub open spec fn is_fn_kw(t: TokV) -> bool {
    t is KwFn || t is KwFnC || t is KwFnPy
}

/// The variant a function keyword declares.
pub open spec fn fn_kind(t: TokV) -> Variant
    recommends
        is_fn_kw(t),
{
    match t {
        TokV::KwFnC => Variant::COnly,
        TokV::KwFnPy => Variant::PyOnly,
        _ => Variant::Shared,
    }
}

/// Grammar: `type := name | "[" name ";" INT "]"`.
pub open spec fn sp_type(t: Seq<TokV>, i: int) -> Option<(TypeRefV, int)> {
    if i < t.len() && t[i] is Ident {
        Option::Some((TypeRefV::Name(t[i]->Ident_0), i + 1))
    } else if i + 5 <= t.len() && t[i] is LBracket && t[i + 1] is Ident && t[i + 2] is Semi && t[i
        + 3] is IntLit && t[i + 4] is RBracket {
        Option::Some((TypeRefV::Array(t[i + 1]->Ident_0, t[i + 3]->IntLit_0), i + 5))
    } else {
        Option::None
    }
}

/// Grammar: `attr* := (("comment"|"comment_c"|"comment_py") "=" STRING)*`.
pub open spec fn sp_attrs(t: Seq<TokV>, i: int) -> Option<(Seq<AttrV>, int)>
    decreases t.len() - i,
{
    if i < t.len() && is_attr_kw(t[i]) {
        if i + 3 <= t.len() && t[i + 1] is Eq && t[i + 2] is StrLit {
            match sp_attrs(t, i + 3) {
                Option::Some((rest, j)) => Option::Some(
                    (seq![AttrV { key: attr_key(t[i]), value: t[i + 2]->StrLit_0 }] + rest, j),
                ),
                Option::None => Option::None,
            }
        } else {
            Option::None
        }
    } else {
        Option::Some((Seq::empty(), i))
    }
}

/// Grammar: the `("," variant)* ","?` tail of an enum's variant list.
/// Stops (without consuming) at the first token that does not continue
/// the list; it cannot fail.
pub open spec fn sp_variant_tail(t: Seq<TokV>, i: int) -> (Seq<Seq<char>>, int)
    decreases t.len() - i,
{
    if i < t.len() && t[i] is Comma {
        if i + 2 <= t.len() && t[i + 1] is Ident {
            let (rest, j) = sp_variant_tail(t, i + 2);
            (seq![t[i + 1]->Ident_0] + rest, j)
        } else {
            (Seq::empty(), i + 1)
        }
    } else {
        (Seq::empty(), i)
    }
}

/// Grammar: `enumDecl := "enum" name "{" variant ("," variant)* ","? "}"`,
/// with the resolved documentation attached.
pub open spec fn sp_enum(t: Seq<TokV>, i: int, doc: Seq<char>) -> Option<(EnumDeclV, int)> {
    if i + 4 <= t.len() && t[i] is KwEnum && t[i + 1] is Ident && t[i + 2] is LBrace && t[i
        + 3] is Ident {
        let (rest, j) = sp_variant_tail(t, i + 4);
        if j < t.len() && t[j] is RBrace {
            Option::Some(
                (
                    EnumDeclV {
                        name: t[i + 1]->Ident_0,
                        variants: seq![t[i + 3]->Ident_0] + rest,
                        doc,
                    },
                    j + 1,
                ),
            )
        } else {
            Option::None
        }
    } else {
        Option::None
    }
}

/// Grammar: the `(field ":" type ",")*` interior of a struct declaration.
pub open spec fn sp_fields(t: Seq<TokV>, i: int) -> Option<(Seq<FieldV>, int)>
    decreases t.len() - i,
{
    if i < t.len() && t[i] is Ident {
        if i + 2 <= t.len() && t[i + 1] is Colon {
            match sp_type(t, i + 2) {
                Option::Some((ty, j)) => if j < t.len() && t[j] is Comma {
                    match sp_fields(t, j + 1) {
                        Option::Some((rest, k)) => Option::Some(
                            (seq![FieldV { name: t[i]->Ident_0, ty }] + rest, k),
                        ),
                        Option::None => Option::None,
                    }
                } else {
                    Option::None
                },
                Option::None => Option::None,
            }
        } else {
            Option::None
        }
    } else {
        Option::Some((Seq::empty(), i))
    }
}

/// Grammar: `structDecl := "struct" name "{" (field ":" type ",")* "}"`,
/// with the resolved documentation attached.
pub open spec fn sp_struct(t: Seq<TokV>, i: int, doc: Seq<char>) -> Option<(StructDeclV, int)> {
    if i + 3 <= t.len() && t[i] is KwStruct && t[i + 1] is Ident && t[i + 2] is LBrace {
        match sp_fields(t, i + 3) {
            Option::Some((fields, j)) => if j < t.len() && t[j] is RBrace {
                Option::Some((StructDeclV { name: t[i + 1]->Ident_0, fields, doc }, j + 1))
            } else {
                Option::None
            },
            Option::None => Option::None,
        }
    } else {
        Option::None
    }
}

/// Grammar: the `(param ":" type ","?)*` interior of a parameter list.
pub open spec fn sp_params(t: Seq<TokV>, i: int) -> Option<(Seq<FieldV>, int)>
    decreases t.len() - i,
{
    if i < t.len() && t[i] is Ident {
        if i + 2 <= t.len() && t[i + 1] is Colon {
            match sp_type(t, i + 2) {
                Option::Some((ty, j)) => {
                    let j2 = if j < t.len() && t[j] is Comma {
                        j + 1
                    } else {
                        j
                    };
                    match sp_params(t, j2) {
                        Option::Some((rest, k)) => Option::Some(
                            (seq![FieldV { name: t[i]->Ident_0, ty }] + rest, k),
                        ),
                        Option::None => Option::None,
                    }
                },
                Option::None => Option::None,
            }
        } else {
            Option::None
        }
    } else {
        Option::Some((Seq::empty(), i))
    }
}

/// The end of a function declaration: its opaque BODY token.
pub open spec fn sp_fn_body(
    t: Seq<TokV>,
    i: int,
    name: Seq<char>,
    params: Seq<FieldV>,
    ret: Option<TypeRefV>,
    variant: Variant,
    doc_c: Seq<char>,
    doc_py: Seq<char>,
) -> Option<(FunctionDeclV, int)> {
    if i < t.len() && t[i] is Body {
        Option::Some(
            (
                FunctionDeclV {
                    name,
                    params,
                    ret,
                    variant,
                    doc_c,
                    doc_py,
                    body: t[i]->Body_0,
                },
                i + 1,
            ),
        )
    } else {
        Option::None
    }
}

/// Grammar: `fnDecl := kind name "(" params ")" ("->" type)? BODY`, with
/// the resolved per-target documentation attached.
pub open spec fn sp_fn(t: Seq<TokV>, i: int, doc_c: Seq<char>, doc_py: Seq<char>) -> Option<
    (FunctionDeclV, int),
> {
    if i + 3 <= t.len() && is_fn_kw(t[i]) && t[i + 1] is Ident && t[i + 2] is LParen {
        let name = t[i + 1]->Ident_0;
        let variant = fn_kind(t[i]);
        match sp_params(t, i + 3) {
            Option::Some((params, j)) => if j < t.len() && t[j] is RParen {
                if j + 1 < t.len() && t[j + 1] is Arrow {
                    match sp_type(t, j + 2) {
                        Option::Some((ty, k)) => sp_fn_body(
                            t,
                            k,
                            name,
                            params,
                            Option::Some(ty),
                            variant,
                            doc_c,
                            doc_py,
                        ),
                        Option::None => Option::None,
                    }
                } else {
                    sp_fn_body(t, j + 1, name, params, Option::None, variant, doc_c, doc_py)
                }
            } else {
                Option::None
            },
            Option::None => Option::None,
        }
    } else {
        Option::None
    }
}

/// Grammar: `item := attr* (enumDecl | structDecl | fnDecl)`.  The item's
/// attributes are resolved into its documentation: types take the single
/// documentation string, functions the per-target pair.
pub open spec fn sp_item(t: Seq<TokV>, i: int) -> Option<(ItemV, int)> {
    match sp_attrs(t, i) {
        Option::Some((attrs, j)) => if j < t.len() && t[j] is KwEnum {
            match sp_enum(t, j, spec_resolve_doc(attrs)) {
                Option::Some((e, k)) => Option::Some((ItemV::Ty(TypeDeclV::Enum(e)), k)),
                Option::None => Option::None,
            }
        } else if j < t.len() && t[j] is KwStruct {
            match sp_struct(t, j, spec_resolve_doc(attrs)) {
                Option::Some((s, k)) => Option::Some((ItemV::Ty(TypeDeclV::Struct(s)), k)),
                Option::None => Option::None,
            }
        } else if j < t.len() && is_fn_kw(t[j]) {
            match sp_fn(t, j, spec_resolve_docs(attrs).0, spec_resolve_docs(attrs).1) {
                Option::Some((f, k)) => Option::Some((ItemV::Fun(f), k)),
                Option::None => Option::None,
            }
        } else {
            Option::None
        },
        Option::None => Option::None,
    }
}

/// A successful attribute scan never moves backwards nor past the end.
proof fn lemma_sp_attrs_progress(t: Seq<TokV>, i: int)
    requires
        0 <= i <= t.len(),
    ensures
        sp_attrs(t, i) matches Option::Some((attrs, j)) ==> i <= j <= t.len(),
    decreases t.len() - i,
{
    if i < t.len() && is_attr_kw(t[i]) {
        if i + 3 <= t.len() && t[i + 1] is Eq && t[i + 2] is StrLit {
            lemma_sp_attrs_progress(t, i + 3);
        }
    }
}

/// The variant-list tail never moves backwards nor past the end.
proof fn lemma_sp_variant_tail_progress(t: Seq<TokV>, i: int)
    requires
        0 <= i <= t.len(),
    ensures
        i <= sp_variant_tail(t, i).1 <= t.len(),
    decreases t.len() - i,
{
    if i < t.len() && t[i] is Comma {
        if i + 2 <= t.len() && t[i + 1] is Ident {
            lemma_sp_variant_tail_progress(t, i + 2);
        }
    }
}

/// A successful field scan never moves backwards nor past the end.
proof fn lemma_sp_fields_progress(t: Seq<TokV>, i: int)
    requires
        0 <= i <= t.len(),
    ensures
        sp_fields(t, i) matches Option::Some((fields, j)) ==> i <= j <= t.len(),
    decreases t.len() - i,
{
    if i < t.len() && t[i] is Ident && i + 2 <= t.len() && t[i + 1] is Colon {
        if let Option::Some((ty, j)) = sp_type(t, i + 2) {
            if j < t.len() && t[j] is Comma {
                lemma_sp_fields_progress(t, j + 1);
            }
        }
    }
}

/// A successful parameter scan never moves backwards nor past the end.
proof fn lemma_sp_params_progress(t: Seq<TokV>, i: int)
    requires
        0 <= i <= t.len(),
    ensures
        sp_params(t, i) matches Option::Some((params, j)) ==> i <= j <= t.len(),
    decreases t.len() - i,
{
    if i < t.len() && t[i] is Ident && i + 2 <= t.len() && t[i + 1] is Colon {
        if let Option::Some((ty, j)) = sp_type(t, i + 2) {
            let j2 = if j < t.len() && t[j] is Comma {
                j + 1
            } else {
                j
            };
            lemma_sp_params_progress(t, j2);
        }
    }
}

/// A successfully parsed item consumes at least one token and stays in
/// bounds.
proof fn lemma_sp_item_progress(t: Seq<TokV>, i: int)
    requires
        0 <= i <= t.len(),
    ensures
        sp_item(t, i) matches Option::Some((item, j)) ==> i < j <= t.len(),
{
    lemma_sp_attrs_progress(t, i);
    if let Option::Some((attrs, j)) = sp_attrs(t, i) {
        if j < t.len() && t[j] is KwEnum {
            if j + 4 <= t.len() {
                lemma_sp_variant_tail_progress(t, j + 4);
            }
        } else if j < t.len() && t[j] is KwStruct {
            if j + 3 <= t.len() {
                lemma_sp_fields_progress(t, j + 3);
            }
        } else if j < t.len() && is_fn_kw(t[j]) {
            if j + 3 <= t.len() {
                lemma_sp_params_progress(t, j + 3);
            }
        }
    }
}

/// Grammar: the `item*` interior of a module block, split into the
/// ordered type-declaration and function-declaration lists.  Stops at a
/// closing brace without consuming it.
pub open spec fn sp_items(t: Seq<TokV>, i: int) -> Option<
    ((Seq<TypeDeclV>, Seq<FunctionDeclV>), int),
>
    decreases t.len() - i,
        via sp_items_dec
{
    if i < 0 {
        Option::None
    } else if i < t.len() && t[i] is RBrace {
        Option::Some(((Seq::empty(), Seq::empty()), i))
    } else {
        match sp_item(t, i) {
            Option::Some((item, j)) => match sp_items(t, j) {
                Option::Some(((tys, fns), k)) => match item {
                    ItemV::Ty(d) => Option::Some(((seq![d] + tys, fns), k)),
                    ItemV::Fun(f) => Option::Some(((tys, seq![f] + fns), k)),
                },
                Option::None => Option::None,
            },
            Option::None => Option::None,
        }
    }
}

#[via_fn]
proof fn sp_items_dec(t: Seq<TokV>, i: int) {
    if 0 <= i {
        if i <= t.len() {
            lemma_sp_item_progress(t, i);
        } else {
            assert(sp_attrs(t, i) matches Option::Some((attrs, j)) ==> j == i);
            assert(sp_item(t, i) is None);
        }
    }
}

/// A successful item scan stops on a closing brace, strictly inside
/// the token sequence.
proof fn lemma_sp_items_stops_at_rbrace(t: Seq<TokV>, i: int)
    requires
        0 <= i <= t.len(),
    ensures
        sp_items(t, i) matches Option::Some((lists, j)) ==> j < t.len() && t[j] is RBrace,
    decreases t.len() - i,
{
    if !(i < t.len() && t[i] is RBrace) {
        lemma_sp_item_progress(t, i);
        if let Option::Some((item, j)) = sp_item(t, i) {
            lemma_sp_items_stops_at_rbrace(t, j);
        }
    }
}

/// Grammar: `module := "module" name "{" item* "}"`, consuming the whole
/// token sequence.
pub open spec fn sp_module(t: Seq<TokV>) -> Option<ModuleSpecV> {
    if 3 <= t.len() && t[0] is KwModule && t[1] is Ident && t[2] is LBrace {
        match sp_items(t, 3) {
            Option::Some(((tys, fns), j)) => if j + 1 == t.len() {
                Option::Some(ModuleSpecV { name: t[1]->Ident_0, types: tys, functions: fns })
            } else {
                Option::None
            },
            Option::None => Option::None,
        }
    } else {
        Option::None
    }
}

/// Grammar: the `("," name)* ","?` tail of a bracketed identifier list.
/// It cannot fail: it stops at the first token that does not continue
/// the list.
pub open spec fn sp_ident_tail(t: Seq<TokV>, i: int) -> (Seq<Seq<char>>, int)
    decreases t.len() - i,
{
    if i < t.len() && t[i] is Comma {
        if i + 2 <= t.len() && t[i + 1] is Ident {
            let (rest, j) = sp_ident_tail(t, i + 2);
            (seq![t[i + 1]->Ident_0] + rest, j)
        } else {
            (Seq::empty(), i + 1)
        }
    } else {
        (Seq::empty(), i)
    }
}

/// Grammar: `idents := (name ("," name)* ","?)?`, a possibly-empty
/// comma-separated identifier list.
pub open spec fn sp_ident_list(t: Seq<TokV>, i: int) -> (Seq<Seq<char>>, int) {
    if i < t.len() && t[i] is Ident {
        let (rest, j) = sp_ident_tail(t, i + 1);
        (seq![t[i]->Ident_0] + rest, j)
    } else {
        (Seq::empty(), i)
    }
}

/// Whether a token is the identifier spelled `key`.
pub open spec fn is_key_tok(t: TokV, key: Seq<char>) -> bool {
    t is Ident && t->Ident_0 == key
}

/// Grammar: the flat form, `"name" "=" name "," "types" "=" "[" idents
/// "]" "," "functions" "=" "[" idents "]"`, consuming the whole token
/// sequence.  The three keys must be spelled exactly so.
pub open spec fn sp_flat(t: Seq<TokV>) -> Option<ModuleRefsV> {
    if 7 <= t.len() && is_key_tok(t[0], "name"@) && t[1] is Eq && t[2] is Ident && t[3] is Comma
        && is_key_tok(t[4], "types"@) && t[5] is Eq && t[6] is LBracket {
        let (tys, j) = sp_ident_list(t, 7);
        if j + 5 <= t.len() && t[j] is RBracket && t[j + 1] is Comma && is_key_tok(
            t[j + 2],
            "functions"@,
        ) && t[j + 3] is Eq && t[j + 4] is LBracket {
            let (fns, k) = sp_ident_list(t, j + 5);
            if k + 1 == t.len() && t[k] is RBracket {
                Option::Some(ModuleRefsV { name: t[2]->Ident_0, types: tys, functions: fns })
            } else {
                Option::None
            }
        } else {
            Option::None
        }
    } else {
        Option::None
    }
}

/// Error positions.  Each `sp_*_err` function gives the token index a
/// failed parse of the corresponding production reports: it scans as
/// the production does and names the first token at which matching went
/// wrong.  Its value is meaningful only where the production fails.
pub open spec fn sp_type_err(t: Seq<TokV>, i: int) -> int {
    i
}

/// Error position of the attribute scan.
pub open spec fn sp_attrs_err(t: Seq<TokV>, i: int) -> int
    decreases t.len() - i,
{
    if i < t.len() && is_attr_kw(t[i]) {
        if i + 3 <= t.len() && t[i + 1] is Eq && t[i + 2] is StrLit {
            sp_attrs_err(t, i + 3)
        } else {
            i
        }
    } else {
        i
    }
}

/// Error position of the struct-field scan.
pub open spec fn sp_fields_err(t: Seq<TokV>, i: int) -> int
    decreases t.len() - i,
{
    if i < t.len() && t[i] is Ident {
        if i + 2 <= t.len() && t[i + 1] is Colon {
            match sp_type(t, i + 2) {
                Option::Some((ty, j)) => if j < t.len() && t[j] is Comma {
                    sp_fields_err(t, j + 1)
                } else {
                    j
                },
                Option::None => sp_type_err(t, i + 2),
            }
        } else {
            i
        }
    } else {
        i
    }
}

/// Error position of the parameter scan.
pub open spec fn sp_params_err(t: Seq<TokV>, i: int) -> int
    decreases t.len() - i,
{
    if i < t.len() && t[i] is Ident {
        if i + 2 <= t.len() && t[i + 1] is Colon {
            match sp_type(t, i + 2) {
                Option::Some((ty, j)) => {
                    let j2 = if j < t.len() && t[j] is Comma {
                        j + 1
                    } else {
                        j
                    };
                    sp_params_err(t, j2)
                },
                Option::None => sp_type_err(t, i + 2),
            }
        } else {
            i
        }
    } else {
        i
    }
}

/// Error position of an enum declaration.
pub open spec fn sp_enum_err(t: Seq<TokV>, i: int) -> int {
    if i + 4 <= t.len() && t[i] is KwEnum && t[i + 1] is Ident && t[i + 2] is LBrace && t[i
        + 3] is Ident {
        sp_variant_tail(t, i + 4).1
    } else {
        i
    }
}

/// Error position of a struct declaration.
pub open spec fn sp_struct_err(t: Seq<TokV>, i: int) -> int {
    if i + 3 <= t.len() && t[i] is KwStruct && t[i + 1] is Ident && t[i + 2] is LBrace {
        match sp_fields(t, i + 3) {
            Option::Some((fields, j)) => j,
            Option::None => sp_fields_err(t, i + 3),
        }
    } else {
        i
    }
}

/// Error position of a function declaration.
pub open spec fn sp_fn_err(t: Seq<TokV>, i: int) -> int {
    if i + 3 <= t.len() && is_fn_kw(t[i]) && t[i + 1] is Ident && t[i + 2] is LParen {
        match sp_params(t, i + 3) {
            Option::Some((params, j)) => if j < t.len() && t[j] is RParen {
                if j + 1 < t.len() && t[j + 1] is Arrow {
                    match sp_type(t, j + 2) {
                        Option::Some((ty, k)) => k,
                        Option::None => sp_type_err(t, j + 2),
                    }
                } else {
                    j + 1
                }
            } else {
                j
            },
            Option::None => sp_params_err(t, i + 3),
        }
    } else {
        i
    }
}

/// Error position of one item.
pub open spec fn sp_item_err(t: Seq<TokV>, i: int) -> int {
    match sp_attrs(t, i) {
        Option::Some((attrs, j)) => if j < t.len() && t[j] is KwEnum {
            sp_enum_err(t, j)
        } else if j < t.len() && t[j] is KwStruct {
            sp_struct_err(t, j)
        } else if j < t.len() && is_fn_kw(t[j]) {
            sp_fn_err(t, j)
        } else {
            j
        },
        Option::None => sp_attrs_err(t, i),
    }
}

/// Error position of a module block's item list.
pub open spec fn sp_items_err(t: Seq<TokV>, i: int) -> int
    decreases t.len() - i,
        via sp_items_err_dec
{
    if i < 0 {
        0
    } else if i < t.len() && t[i] is RBrace {
        i
    } else {
        match sp_item(t, i) {
            Option::Some((item, j)) => sp_items_err(t, j),
            Option::None => sp_item_err(t, i),
        }
    }
}

#[via_fn]
proof fn sp_items_err_dec(t: Seq<TokV>, i: int) {
    if 0 <= i {
        if i <= t.len() {
            lemma_sp_item_progress(t, i);
        } else {
            assert(sp_attrs(t, i) matches Option::Some((attrs, j)) ==> j == i);
            assert(sp_item(t, i) is None);
        }
    }
}

/// Error position of a whole nested-form schema.
pub open spec fn sp_module_err(t: Seq<TokV>) -> int {
    if 3 <= t.len() && t[0] is KwModule && t[1] is Ident && t[2] is LBrace {
        match sp_items(t, 3) {
            Option::Some(((tys, fns), j)) => j + 1,
            Option::None => sp_items_err(t, 3),
        }
    } else {
        0
    }
}

/// Error position of a whole flat-form schema.
pub open spec fn sp_flat_err(t: Seq<TokV>) -> int {
    if t.len() < 7 {
        0
    } else if !is_key_tok(t[0], "name"@) {
        0
    } else if !(t[1] is Eq) {
        1
    } else if !(t[2] is Ident) {
        2
    } else if !(t[3] is Comma) {
        3
    } else if !is_key_tok(t[4], "types"@) {
        4
    } else if !(t[5] is Eq) {
        5
    } else if !(t[6] is LBracket) {
        6
    } else {
        let (tys, j) = sp_ident_list(t, 7);
        if !(j < t.len() && t[j] is RBracket) {
            j
        } else if !(j + 1 < t.len() && t[j + 1] is Comma) {
            j + 1
        } else if !(j + 2 < t.len() && is_key_tok(t[j + 2], "functions"@)) {
            j + 2
        } else if !(j + 3 < t.len() && t[j + 3] is Eq) {
            j + 3
        } else if !(j + 4 < t.len() && t[j + 4] is LBracket) {
            j + 4
        } else {
            let (fns, k) = sp_ident_list(t, j + 5);
            if !(k < t.len() && t[k] is RBracket) {
                k
            } else {
                k + 1
            }
        }
    }
}

/// Parses one type reference.
fn parse_type(toks: &Vec<Tok>, i: usize) -> (r: Result<(TypeRef, usize), SchemaSyntaxError>)
    requires
        i <= toks@.len(),
    ensures
        (match r {
            Result::Ok(p) => sp_type(tokens_view(toks@), i as int) == Option::Some(
                (p.0@, p.1 as int),
            ) && p.1 <= toks@.len(),
            Result::Err(e) => sp_type(tokens_view(toks@), i as int) is None && e.at as int
                == sp_type_err(tokens_view(toks@), i as int),
        }),
{
    let n: usize = toks.len();
    if i < n {
        match &toks[i] {
            Tok::Ident(s) => {
                return Result::Ok((TypeRef::Name(s.clone()), i + 1));
            },
            Tok::LBracket => {
                if n - i >= 5 {
                    let shape_ok: bool = matches!(&toks[i + 2], Tok::Semi) && matches!(
                        &toks[i + 4],
                        Tok::RBracket,
                    );
                    if shape_ok {
                        if let Tok::Ident(elem) = &toks[i + 1] {
                            if let Tok::IntLit(len) = &toks[i + 3] {
                                return Result::Ok((TypeRef::Array(elem.clone(), *len), i + 5));
                            }
                        }
                    }
                }
            },
            _ => {},
        }
    }
    Result::Err(SchemaSyntaxError { at: i, expected: Construct::TypeRef })
}

/// Parses the documentation attributes in front of an item.
fn parse_attrs(toks: &Vec<Tok>, i: usize) -> (r: Result<(Vec<Attr>, usize), SchemaSyntaxError>)
    requires
        i <= toks@.len(),
    ensures
        (match r {
            Result::Ok(p) => sp_attrs(tokens_view(toks@), i as int) == Option::Some(
                (attrs_view(p.0@), p.1 as int),
            ) && i <= p.1 <= toks@.len(),
            Result::Err(e) => sp_attrs(tokens_view(toks@), i as int) is None && e.at as int
                == sp_attrs_err(tokens_view(toks@), i as int),
        }),
{
    let ghost t = tokens_view(toks@);
    let n: usize = toks.len();
    let mut acc: Vec<Attr> = Vec::new();
    let mut pos: usize = i;
    proof {
        assert(attrs_view(acc@) =~= Seq::<AttrV>::empty());
    }
    loop
        invariant
            i <= pos <= n,
            n == toks@.len(),
            t == tokens_view(toks@),
            (match sp_attrs(t, pos as int) {
                Option::Some((rest, j)) => sp_attrs(t, i as int) == Option::Some(
                    (attrs_view(acc@) + rest, j),
                ),
                Option::None => sp_attrs(t, i as int) is None && sp_attrs_err(t, i as int)
                    == sp_attrs_err(t, pos as int),
            }),
        decreases n - pos,
    {
        let at_attr: bool = pos < n && matches!(
            &toks[pos],
            Tok::KwComment | Tok::KwCommentC | Tok::KwCommentPy,
        );
        if !at_attr {
            proof {
                assert(attrs_view(acc@) + Seq::<AttrV>::empty() =~= attrs_view(acc@));
            }
            return Result::Ok((acc, pos));
        }
        if n - pos >= 3 && matches!(&toks[pos + 1], Tok::Eq) {
            if let Tok::StrLit(v) = &toks[pos + 2] {
                let key: AttrKey = match &toks[pos] {
                    Tok::KwCommentC => AttrKey::CommentC,
                    Tok::KwCommentPy => AttrKey::CommentPy,
                    _ => AttrKey::Comment,
                };
                let a = Attr { key, value: v.clone() };
                proof {
                    assert(attrs_view(acc@.push(a)) =~= attrs_view(acc@) + seq![a@]);
                    if let Option::Some((rest2, j)) = sp_attrs(t, pos as int + 3) {
                        assert((attrs_view(acc@) + seq![a@]) + rest2 =~= attrs_view(acc@) + (
                        seq![a@] + rest2));
                    }
                    if sp_attrs(t, pos as int + 3) is None {
                        assert(sp_attrs_err(t, pos as int) == sp_attrs_err(t, pos as int + 3));
                    }
                }
                acc.push(a);
                pos = pos + 3;
            } else {
                proof {
                    assert(sp_attrs(t, pos as int) is None);
                    assert(sp_attrs_err(t, pos as int) == pos as int);
                }
                return Result::Err(SchemaSyntaxError { at: pos, expected: Construct::Attribute });
            }
        } else {
            proof {
                assert(sp_attrs(t, pos as int) is None);
                assert(sp_attrs_err(t, pos as int) == pos as int);
            }
            return Result::Err(SchemaSyntaxError { at: pos, expected: Construct::Attribute });
        }
    }
}

/// Parses the comma-separated tail of an enum's variant list.
fn parse_variant_tail(toks: &Vec<Tok>, i: usize) -> (r: (Vec<String>, usize))
    requires
        i <= toks@.len(),
    ensures
        sp_variant_tail(tokens_view(toks@), i as int) == (r.0.deep_view(), r.1 as int),
        i <= r.1 <= toks@.len(),
{
    let ghost t = tokens_view(toks@);
    let n: usize = toks.len();
    let mut acc: Vec<String> = Vec::new();
    let mut pos: usize = i;
    proof {
        assert(acc.deep_view() =~= Seq::<Seq<char>>::empty());
    }
    loop
        invariant
            i <= pos <= n,
            n == toks@.len(),
            t == tokens_view(toks@),
            ({
                let (rest, j) = sp_variant_tail(t, pos as int);
                sp_variant_tail(t, i as int) == (acc.deep_view() + rest, j)
            }),
        decreases n - pos,
    {
        if pos < n && matches!(&toks[pos], Tok::Comma) {
            if n - pos >= 2 {
                if let Tok::Ident(s) = &toks[pos + 1] {
                    let ghost prev = acc.deep_view();
                    acc.push(s.clone());
                    proof {
                        assert(acc.deep_view() =~= prev.push(s@));
                        let (rest2, j) = sp_variant_tail(t, pos as int + 2);
                        assert((prev + seq![s@]) + rest2 =~= prev + (seq![s@] + rest2));
                        assert(prev.push(s@) =~= prev + seq![s@]);
                    }
                    pos = pos + 2;
                } else {
                    proof {
                        assert(acc.deep_view() + Seq::<Seq<char>>::empty() =~= acc.deep_view());
                    }
                    return (acc, pos + 1);
                }
            } else {
                proof {
                    assert(acc.deep_view() + Seq::<Seq<char>>::empty() =~= acc.deep_view());
                }
                return (acc, pos + 1);
            }
        } else {
            proof {
                assert(acc.deep_view() + Seq::<Seq<char>>::empty() =~= acc.deep_view());
            }
            return (acc, pos);
        }
    }
}

/// Parses an enum declaration, attaching its resolved documentation.
fn parse_enum(toks: &Vec<Tok>, i: usize, doc: String) -> (r: Result<
    (EnumDecl, usize),
    SchemaSyntaxError,
>)
    requires
        i <= toks@.len(),
    ensures
        (match r {
            Result::Ok(p) => sp_enum(tokens_view(toks@), i as int, doc@) == Option::Some(
                (p.0@, p.1 as int),
            ) && p.1 <= toks@.len(),
            Result::Err(e) => sp_enum(tokens_view(toks@), i as int, doc@) is None && e.at as int
                == sp_enum_err(tokens_view(toks@), i as int),
        }),
{
    let n: usize = toks.len();
    if n - i >= 4 && matches!(&toks[i], Tok::KwEnum) && matches!(&toks[i + 2], Tok::LBrace) {
        if let Tok::Ident(name) = &toks[i + 1] {
            if let Tok::Ident(first) = &toks[i + 3] {
                let (tail, j) = parse_variant_tail(toks, i + 4);
                if j < n && matches!(&toks[j], Tok::RBrace) {
                    let mut variants: Vec<String> = Vec::new();
                    variants.push(first.clone());
                    let mut tail_rest = tail;
                    variants.append(&mut tail_rest);
                    let decl = EnumDecl { name: name.clone(), variants, doc };
                    proof {
                        let (restv, jv) = sp_variant_tail(tokens_view(toks@), i as int + 4);
                        assert(decl.variants.deep_view() =~= seq![first@] + restv);
                        assert(decl@.variants == seq![first@] + restv);
                    }
                    return Result::Ok((decl, j + 1));
                } else {
                    return Result::Err(SchemaSyntaxError { at: j, expected: Construct::EnumDecl });
                }
            }
        }
    }
    Result::Err(SchemaSyntaxError { at: i, expected: Construct::EnumDecl })
}

/// Parses the field list interior of a struct declaration.
fn parse_struct_fields(toks: &Vec<Tok>, i: usize) -> (r: Result<
    (Vec<Field>, usize),
    SchemaSyntaxError,
>)
    requires
        i <= toks@.len(),
    ensures
        (match r {
            Result::Ok(p) => sp_fields(tokens_view(toks@), i as int) == Option::Some(
                (p.0@.map_values(|f: Field| f@), p.1 as int),
            ) && i <= p.1 <= toks@.len(),
            Result::Err(e) => sp_fields(tokens_view(toks@), i as int) is None && e.at as int
                == sp_fields_err(tokens_view(toks@), i as int),
        }),
{
    let ghost t = tokens_view(toks@);
    let n: usize = toks.len();
    let mut acc: Vec<Field> = Vec::new();
    let mut pos: usize = i;
    proof {
        assert(acc@.map_values(|f: Field| f@) =~= Seq::<FieldV>::empty());
    }
    loop
        invariant
            i <= pos <= n,
            n == toks@.len(),
            t == tokens_view(toks@),
            (match sp_fields(t, pos as int) {
                Option::Some((rest, j)) => sp_fields(t, i as int) == Option::Some(
                    (acc@.map_values(|f: Field| f@) + rest, j),
                ),
                Option::None => sp_fields(t, i as int) is None && sp_fields_err(t, i as int)
                    == sp_fields_err(t, pos as int),
            }),
        decreases n - pos,
    {
        let at_field: bool = pos < n && matches!(&toks[pos], Tok::Ident(_));
        if !at_field {
            proof {
                assert(acc@.map_values(|f: Field| f@) + Seq::<FieldV>::empty() =~= acc@.map_values(
                    |f: Field| f@,
                ));
            }
            return Result::Ok((acc, pos));
        }
        if n - pos >= 2 && matches!(&toks[pos + 1], Tok::Colon) {
            let fname: String = match &toks[pos] {
                Tok::Ident(s) => s.clone(),
                _ => {
                    return Result::Err(SchemaSyntaxError { at: pos, expected: Construct::StructDecl });
                },
            };
            match parse_type(toks, pos + 2) {
                Result::Ok((ty, j)) => {
                    if j < n && matches!(&toks[j], Tok::Comma) {
                        let f = Field { name: fname, ty };
                        proof {
                            let fv = f@;
                            let prev = acc@.map_values(|x: Field| x@);
                            assert(acc@.push(f).map_values(|x: Field| x@) =~= prev.push(fv));
                            if let Option::Some((rest2, k)) = sp_fields(t, j as int + 1) {
                                assert((prev + seq![fv]) + rest2 =~= prev + (seq![fv] + rest2));
                            }
                            assert(prev.push(fv) =~= prev + seq![fv]);
                            if sp_fields(t, j as int + 1) is None {
                                assert(sp_fields_err(t, pos as int) == sp_fields_err(
                                    t,
                                    j as int + 1,
                                ));
                            }
                        }
                        acc.push(f);
                        pos = j + 1;
                    } else {
                        return Result::Err(SchemaSyntaxError { at: j, expected: Construct::StructDecl });
                    }
                },
                Result::Err(e) => {
                    return Result::Err(e);
                },
            }
        } else {
            return Result::Err(SchemaSyntaxError { at: pos, expected: Construct::StructDecl });
        }
    }
}

/// Parses a struct declaration, attaching its resolved documentation.
fn parse_struct(toks: &Vec<Tok>, i: usize, doc: String) -> (r: Result<
    (StructDecl, usize),
    SchemaSyntaxError,
>)
    requires
        i <= toks@.len(),
    ensures
        (match r {
            Result::Ok(p) => sp_struct(tokens_view(toks@), i as int, doc@) == Option::Some(
                (p.0@, p.1 as int),
            ) && p.1 <= toks@.len(),
            Result::Err(e) => sp_struct(tokens_view(toks@), i as int, doc@) is None && e.at
                as int == sp_struct_err(tokens_view(toks@), i as int),
        }),
{
    let n: usize = toks.len();
    if n - i >= 3 && matches!(&toks[i], Tok::KwStruct) && matches!(&toks[i + 2], Tok::LBrace) {
        if let Tok::Ident(name) = &toks[i + 1] {
            match parse_struct_fields(toks, i + 3) {
                Result::Ok((fields, j)) => {
                    if j < n && matches!(&toks[j], Tok::RBrace) {
                        let decl = StructDecl { name: name.clone(), fields, doc };
                        return Result::Ok((decl, j + 1));
                    } else {
                        return Result::Err(SchemaSyntaxError { at: j, expected: Construct::StructDecl });
                    }
                },
                Result::Err(e) => {
                    return Result::Err(e);
                },
            }
        }
    }
    Result::Err(SchemaSyntaxError { at: i, expected: Construct::StructDecl })
}

/// Parses the parameter list interior of a function declaration.
fn parse_params(toks: &Vec<Tok>, i: usize) -> (r: Result<
    (Vec<Field>, usize),
    SchemaSyntaxError,
>)
    requires
        i <= toks@.len(),
    ensures
        (match r {
            Result::Ok(p) => sp_params(tokens_view(toks@), i as int) == Option::Some(
                (p.0@.map_values(|f: Field| f@), p.1 as int),
            ) && i <= p.1 <= toks@.len(),
            Result::Err(e) => sp_params(tokens_view(toks@), i as int) is None && e.at as int
                == sp_params_err(tokens_view(toks@), i as int),
        }),
{
    let ghost t = tokens_view(toks@);
    let n: usize = toks.len();
    let mut acc: Vec<Field> = Vec::new();
    let mut pos: usize = i;
    proof {
        assert(acc@.map_values(|f: Field| f@) =~= Seq::<FieldV>::empty());
    }
    loop
        invariant
            i <= pos <= n,
            n == toks@.len(),
            t == tokens_view(toks@),
            (match sp_params(t, pos as int) {
                Option::Some((rest, j)) => sp_params(t, i as int) == Option::Some(
                    (acc@.map_values(|f: Field| f@) + rest, j),
                ),
                Option::None => sp_params(t, i as int) is None && sp_params_err(t, i as int)
                    == sp_params_err(t, pos as int),
            }),
        decreases n - pos,
    {
        let at_param: bool = pos < n && matches!(&toks[pos], Tok::Ident(_));
        if !at_param {
            proof {
                assert(acc@.map_values(|f: Field| f@) + Seq::<FieldV>::empty() =~= acc@.map_values(
                    |f: Field| f@,
                ));
            }
            return Result::Ok((acc, pos));
        }
        if n - pos >= 2 && matches!(&toks[pos + 1], Tok::Colon) {
            let pname: String = match &toks[pos] {
                Tok::Ident(s) => s.clone(),
                _ => {
                    return Result::Err(SchemaSyntaxError { at: pos, expected: Construct::FnDecl });
                },
            };
            match parse_type(toks, pos + 2) {
                Result::Ok((ty, j)) => {
                    let j2: usize = if j < n && matches!(&toks[j], Tok::Comma) {
                        j + 1
                    } else {
                        j
                    };
                    let f = Field { name: pname, ty };
                    proof {
                        let fv = f@;
                        let prev = acc@.map_values(|x: Field| x@);
                        assert(acc@.push(f).map_values(|x: Field| x@) =~= prev.push(fv));
                        if let Option::Some((rest2, k)) = sp_params(t, j2 as int) {
                            assert((prev + seq![fv]) + rest2 =~= prev + (seq![fv] + rest2));
                        }
                        assert(prev.push(fv) =~= prev + seq![fv]);
                        if sp_params(t, j2 as int) is None {
                            assert(sp_params_err(t, pos as int) == sp_params_err(t, j2 as int));
                        }
                    }
                    acc.push(f);
                    pos = j2;
                },
                Result::Err(e) => {
                    return Result::Err(e);
                },
            }
        } else {
            return Result::Err(SchemaSyntaxError { at: pos, expected: Construct::FnDecl });
        }
    }
}

/// Parses a function declaration, attaching its resolved documentation
/// pair.
fn parse_fn(toks: &Vec<Tok>, i: usize, doc_c: String, doc_py: String) -> (r: Result<
    (FunctionDecl, usize),
    SchemaSyntaxError,
>)
    requires
        i <= toks@.len(),
    ensures
        (match r {
            Result::Ok(p) => sp_fn(tokens_view(toks@), i as int, doc_c@, doc_py@) == Option::Some(
                (p.0@, p.1 as int),
            ) && p.1 <= toks@.len(),
            Result::Err(e) => sp_fn(tokens_view(toks@), i as int, doc_c@, doc_py@) is None
                && e.at as int == sp_fn_err(tokens_view(toks@), i as int),
        }),
{
    let n: usize = toks.len();
    if n - i >= 3 && matches!(&toks[i], Tok::KwFn | Tok::KwFnC | Tok::KwFnPy) && matches!(
        &toks[i + 2],
        Tok::LParen,
    ) {
        if let Tok::Ident(name) = &toks[i + 1] {
            let variant: Variant = match &toks[i] {
                Tok::KwFnC => Variant::COnly,
                Tok::KwFnPy => Variant::PyOnly,
                _ => Variant::Shared,
            };
            match parse_params(toks, i + 3) {
                Result::Ok((params, j)) => {
                    if j < n && matches!(&toks[j], Tok::RParen) {
                        let mut k: usize = j + 1;
                        let mut ret: Option<TypeRef> = Option::None;
                        if k < n && matches!(&toks[k], Tok::Arrow) {
                            match parse_type(toks, k + 1) {
                                Result::Ok((ty, k2)) => {
                                    ret = Option::Some(ty);
                                    k = k2;
                                },
                                Result::Err(e) => {
                                    return Result::Err(e);
                                },
                            }
                        }
                        if k < n {
                            if let Tok::Body(payload) = &toks[k] {
                                let decl = FunctionDecl {
                                    name: name.clone(),
                                    params,
                                    ret,
                                    variant,
                                    doc_c,
                                    doc_py,
                                    body: payload.clone(),
                                };
                                return Result::Ok((decl, k + 1));
                            }
                        }
                        return Result::Err(SchemaSyntaxError { at: k, expected: Construct::FnDecl });
                    } else {
                        return Result::Err(SchemaSyntaxError { at: j, expected: Construct::FnDecl });
                    }
                },
                Result::Err(e) => {
                    return Result::Err(e);
                },
            }
        }
    }
    Result::Err(SchemaSyntaxError { at: i, expected: Construct::FnDecl })
}

/// Parses one item of the nested form: its attributes, then the
/// declaration, resolving the documentation on the way.
pub(crate) fn parse_item(toks: &Vec<Tok>, i: usize) -> (r: Result<(Item, usize), SchemaSyntaxError>)
    requires
        i <= toks@.len(),
    ensures
        (match r {
            Result::Ok(p) => sp_item(tokens_view(toks@), i as int) == Option::Some(
                (p.0@, p.1 as int),
            ) && i < p.1 <= toks@.len(),
            Result::Err(e) => sp_item(tokens_view(toks@), i as int) is None && e.at as int
                == sp_item_err(tokens_view(toks@), i as int),
        }),
{
    proof {
        lemma_sp_item_progress(tokens_view(toks@), i as int);
    }
    let n: usize = toks.len();
    match parse_attrs(toks, i) {
        Result::Ok((attrs, j)) => {
            if j < n && matches!(&toks[j], Tok::KwEnum) {
                let doc = get_comment(&attrs);
                match parse_enum(toks, j, doc) {
                    Result::Ok((d, k)) => Result::Ok((Item::Ty(TypeDecl::Enum(d)), k)),
                    Result::Err(e) => Result::Err(e),
                }
            } else if j < n && matches!(&toks[j], Tok::KwStruct) {
                let doc = get_comment(&attrs);
                match parse_struct(toks, j, doc) {
                    Result::Ok((d, k)) => Result::Ok((Item::Ty(TypeDecl::Struct(d)), k)),
                    Result::Err(e) => Result::Err(e),
                }
            } else if j < n && matches!(&toks[j], Tok::KwFn | Tok::KwFnC | Tok::KwFnPy) {
                let (doc_c, doc_py) = get_comments(&attrs);
                match parse_fn(toks, j, doc_c, doc_py) {
                    Result::Ok((d, k)) => Result::Ok((Item::Fun(d), k)),
                    Result::Err(e) => Result::Err(e),
                }
            } else {
                Result::Err(SchemaSyntaxError { at: j, expected: Construct::Item })
            }
        },
        Result::Err(e) => Result::Err(e),
    }
}

/// Parses the item list of a module block, splitting it into the ordered
/// type and function declaration lists.
fn parse_items(toks: &Vec<Tok>, i: usize) -> (r: Result<
    ((Vec<TypeDecl>, Vec<FunctionDecl>), usize),
    SchemaSyntaxError,
>)
    requires
        i <= toks@.len(),
    ensures
        (match r {
            Result::Ok(p) => sp_items(tokens_view(toks@), i as int) == Option::Some(
                (
                    (
                        p.0.0@.map_values(|d: TypeDecl| d@),
                        p.0.1@.map_values(|f: FunctionDecl| f@),
                    ),
                    p.1 as int,
                ),
            ) && p.1 <= toks@.len(),
            Result::Err(e) => sp_items(tokens_view(toks@), i as int) is None && e.at as int
                == sp_items_err(tokens_view(toks@), i as int),
        }),
{
    let ghost t = tokens_view(toks@);
    let n: usize = toks.len();
    let mut tys: Vec<TypeDecl> = Vec::new();
    let mut fns: Vec<FunctionDecl> = Vec::new();
    let mut pos: usize = i;
    proof {
        assert(tys@.map_values(|d: TypeDecl| d@) =~= Seq::<TypeDeclV>::empty());
        assert(fns@.map_values(|f: FunctionDecl| f@) =~= Seq::<FunctionDeclV>::empty());
    }
    loop
        invariant
            i <= pos <= n,
            n == toks@.len(),
            t == tokens_view(toks@),
            (match sp_items(t, pos as int) {
                Option::Some(((trest, frest), k)) => sp_items(t, i as int) == Option::Some(
                    (
                        (
                            tys@.map_values(|d: TypeDecl| d@) + trest,
                            fns@.map_values(|f: FunctionDecl| f@) + frest,
                        ),
                        k,
                    ),
                ),
                Option::None => sp_items(t, i as int) is None && sp_items_err(t, i as int)
                    == sp_items_err(t, pos as int),
            }),
        decreases n - pos,
    {
        if pos < n && matches!(&toks[pos], Tok::RBrace) {
            proof {
                assert(tys@.map_values(|d: TypeDecl| d@) + Seq::<TypeDeclV>::empty()
                    =~= tys@.map_values(|d: TypeDecl| d@));
                assert(fns@.map_values(|f: FunctionDecl| f@) + Seq::<FunctionDeclV>::empty()
                    =~= fns@.map_values(|f: FunctionDecl| f@));
            }
            return Result::Ok(((tys, fns), pos));
        }
        match parse_item(toks, pos) {
            Result::Ok((item, j)) => {
                proof {
                    if sp_items(t, j as int) is None {
                        assert(sp_items_err(t, pos as int) == sp_items_err(t, j as int));
                    }
                    let tprev = tys@.map_values(|d: TypeDecl| d@);
                    let fprev = fns@.map_values(|f: FunctionDecl| f@);
                    if let Option::Some(((trest2, frest2), k2)) = sp_items(t, j as int) {
                        assert((tprev + seq![item@->Ty_0]) + trest2 =~= tprev + (seq![item@->Ty_0]
                            + trest2));
                        assert((fprev + seq![item@->Fun_0]) + frest2 =~= fprev + (
                        seq![item@->Fun_0] + frest2));
                    }
                }
                match item {
                    Item::Ty(d) => {
                        proof {
                            let tprev = tys@.map_values(|x: TypeDecl| x@);
                            assert(tys@.push(d).map_values(|x: TypeDecl| x@) =~= tprev.push(d@));
                            assert(tprev.push(d@) =~= tprev + seq![d@]);
                        }
                        tys.push(d);
                    },
                    Item::Fun(f) => {
                        proof {
                            let fprev = fns@.map_values(|x: FunctionDecl| x@);
                            assert(fns@.push(f).map_values(|x: FunctionDecl| x@) =~= fprev.push(
                                f@,
                            ));
                            assert(fprev.push(f@) =~= fprev + seq![f@]);
                        }
                        fns.push(f);
                    },
                }
                pos = j;
            },
            Result::Err(e) => {
                return Result::Err(e);
            },
        }
    }
}

/// Parses a whole schema in the nested block form, `module <name> {
/// <item>* }`, into a module specification.  Fails with the position of
/// the first token that matches no production.
pub fn parse_module(toks: &Vec<Tok>) -> (r: Result<ModuleSpec, SchemaSyntaxError>)
    ensures
        (match r {
            Result::Ok(m) => sp_module(tokens_view(toks@)) == Option::Some(m@),
            Result::Err(e) => sp_module(tokens_view(toks@)) is None && e.at as int
                == sp_module_err(tokens_view(toks@)),
        }),
{
    let n: usize = toks.len();
    if n >= 3 && matches!(&toks[0], Tok::KwModule) && matches!(&toks[2], Tok::LBrace) {
        if let Tok::Ident(name) = &toks[1] {
            match parse_items(toks, 3) {
                Result::Ok(((tys, fns), j)) => {
                    proof {
                        lemma_sp_items_stops_at_rbrace(tokens_view(toks@), 3);
                    }
                    if j + 1 == n {
                        let m = ModuleSpec { name: name.clone(), types: tys, functions: fns };
                        return Result::Ok(m);
                    } else {
                        return Result::Err(
                            SchemaSyntaxError { at: j + 1, expected: Construct::EndOfInput },
                        );
                    }
                },
                Result::Err(e) => {
                    return Result::Err(e);
                },
            }
        }
    }
    Result::Err(SchemaSyntaxError { at: 0, expected: Construct::ModuleHeader })
}

/// Parses the comma-separated tail of a bracketed identifier list.
fn parse_ident_tail(toks: &Vec<Tok>, i: usize) -> (r: (Vec<String>, usize))
    requires
        i <= toks@.len(),
    ensures
        sp_ident_tail(tokens_view(toks@), i as int) == (r.0.deep_view(), r.1 as int),
        i <= r.1 <= toks@.len(),
{
    let ghost t = tokens_view(toks@);
    let n: usize = toks.len();
    let mut acc: Vec<String> = Vec::new();
    let mut pos: usize = i;
    proof {
        assert(acc.deep_view() =~= Seq::<Seq<char>>::empty());
    }
    loop
        invariant
            i <= pos <= n,
            n == toks@.len(),
            t == tokens_view(toks@),
            ({
                let (rest, j) = sp_ident_tail(t, pos as int);
                sp_ident_tail(t, i as int) == (acc.deep_view() + rest, j)
            }),
        decreases n - pos,
    {
        if pos < n && matches!(&toks[pos], Tok::Comma) {
            if n - pos >= 2 {
                if let Tok::Ident(s) = &toks[pos + 1] {
                    let ghost prev = acc.deep_view();
                    acc.push(s.clone());
                    proof {
                        assert(acc.deep_view() =~= prev.push(s@));
                        let (rest2, j) = sp_ident_tail(t, pos as int + 2);
                        assert((prev + seq![s@]) + rest2 =~= prev + (seq![s@] + rest2));
                        assert(prev.push(s@) =~= prev + seq![s@]);
                    }
                    pos = pos + 2;
                } else {
                    proof {
                        assert(acc.deep_view() + Seq::<Seq<char>>::empty() =~= acc.deep_view());
                    }
                    return (acc, pos + 1);
                }
            } else {
                proof {
                    assert(acc.deep_view() + Seq::<Seq<char>>::empty() =~= acc.deep_view());
                }
                return (acc, pos + 1);
            }
        } else {
            proof {
                assert(acc.deep_view() + Seq::<Seq<char>>::empty() =~= acc.deep_view());
            }
            return (acc, pos);
        }
    }
}

/// Parses a possibly-empty bracketed identifier list's interior.
fn parse_ident_list(toks: &Vec<Tok>, i: usize) -> (r: (Vec<String>, usize))
    requires
        i <= toks@.len(),
    ensures
        sp_ident_list(tokens_view(toks@), i as int) == (r.0.deep_view(), r.1 as int),
        i <= r.1 <= toks@.len(),
{
    let n: usize = toks.len();
    if i < n {
        if let Tok::Ident(s) = &toks[i] {
            let (tail, j) = parse_ident_tail(toks, i + 1);
            let mut names: Vec<String> = Vec::new();
            names.push(s.clone());
            let mut tail_rest = tail;
            names.append(&mut tail_rest);
            proof {
                let (restv, jv) = sp_ident_tail(tokens_view(toks@), i as int + 1);
                assert(names.deep_view() =~= seq![s@] + restv);
            }
            return (names, j);
        }
    }
    let empty_names: Vec<String> = Vec::new();
    proof {
        assert(empty_names.deep_view() =~= Seq::<Seq<char>>::empty());
    }
    (empty_names, i)
}

/// Whether a token is the identifier spelled `key`.
fn is_key(t: &Tok, key: &str) -> (r: bool)
    ensures
        r == is_key_tok(t@, key@),
{
    match t {
        Tok::Ident(s) => {
            let spelled: String = String::from_str(key);
            *s == spelled
        },
        _ => false,
    }
}

/// Parses a whole schema in the flat form, `name = <name>, types =
/// [<idents>], functions = [<idents>]`, into a by-name module
/// description.  A key spelled otherwise is a syntax error at that
/// token.
pub fn parse_flat(toks: &Vec<Tok>) -> (r: Result<ModuleRefs, SchemaSyntaxError>)
    ensures
        (match r {
            Result::Ok(m) => sp_flat(tokens_view(toks@)) == Option::Some(m@),
            Result::Err(e) => sp_flat(tokens_view(toks@)) is None && e.at as int == sp_flat_err(
                tokens_view(toks@),
            ),
        }),
{
    let n: usize = toks.len();
    if n < 7 {
        return Result::Err(SchemaSyntaxError { at: 0, expected: Construct::FlatModule });
    }
    if !is_key(&toks[0], "name") {
        return Result::Err(SchemaSyntaxError { at: 0, expected: Construct::FlatModule });
    }
    if !matches!(&toks[1], Tok::Eq) {
        return Result::Err(SchemaSyntaxError { at: 1, expected: Construct::FlatModule });
    }
    if !matches!(&toks[2], Tok::Ident(_)) {
        return Result::Err(SchemaSyntaxError { at: 2, expected: Construct::FlatModule });
    }
    if !matches!(&toks[3], Tok::Comma) {
        return Result::Err(SchemaSyntaxError { at: 3, expected: Construct::FlatModule });
    }
    if !is_key(&toks[4], "types") {
        return Result::Err(SchemaSyntaxError { at: 4, expected: Construct::FlatModule });
    }
    if !matches!(&toks[5], Tok::Eq) {
        return Result::Err(SchemaSyntaxError { at: 5, expected: Construct::FlatModule });
    }
    if !matches!(&toks[6], Tok::LBracket) {
        return Result::Err(SchemaSyntaxError { at: 6, expected: Construct::FlatModule });
    }
    if let Tok::Ident(name) = &toks[2] {
        let (types, j) = parse_ident_list(toks, 7);
        if !(j < n && matches!(&toks[j], Tok::RBracket)) {
            return Result::Err(SchemaSyntaxError { at: j, expected: Construct::FlatModule });
        }
        if !(j + 1 < n && matches!(&toks[j + 1], Tok::Comma)) {
            return Result::Err(SchemaSyntaxError { at: j + 1, expected: Construct::FlatModule });
        }
        if !(j + 2 < n && is_key(&toks[j + 2], "functions")) {
            return Result::Err(SchemaSyntaxError { at: j + 2, expected: Construct::FlatModule });
        }
        if !(j + 3 < n && matches!(&toks[j + 3], Tok::Eq)) {
            return Result::Err(SchemaSyntaxError { at: j + 3, expected: Construct::FlatModule });
        }
        if !(j + 4 < n && matches!(&toks[j + 4], Tok::LBracket)) {
            return Result::Err(SchemaSyntaxError { at: j + 4, expected: Construct::FlatModule });
        }
        let (functions, k) = parse_ident_list(toks, j + 5);
        if !(k < n && matches!(&toks[k], Tok::RBracket)) {
            return Result::Err(SchemaSyntaxError { at: k, expected: Construct::FlatModule });
        }
        if k + 1 != n {
            return Result::Err(SchemaSyntaxError { at: k + 1, expected: Construct::EndOfInput });
        }
        let m = ModuleRefs { name: name.clone(), types, functions };
        Result::Ok(m)
    } else {
        proof {
            assert(false);
        }
        Result::Err(SchemaSyntaxError { at: 2, expected: Construct::FlatModule })
    }
}

} // verus!
