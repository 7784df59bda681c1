//! The schema's data model: declarations as parsed from the schema, and
//! their mathematical views.
//!
//! A module schema declares a name, an ordered list of type declarations
//! and an ordered list of function declarations.  Declaration order is
//! significant (it drives registration order) and is preserved end-to-end.

use vstd::prelude::*;

verus! {

/// Target-applicability tag of a function declaration.
///
/// `Shared` functions are compiled into every build configuration,
/// `COnly` functions only into the C-only configuration, and `PyOnly`
/// functions only into the dynamic-language configuration.
#[derive(Clone, Copy, Debug, PartialEq, Eq, Structural)]
pub enum Variant {
    Shared,
    COnly,
    PyOnly,
}

/// The set of build configurations a declaration is active in.
///
/// There are exactly two configurations: the foreign-callable (C) one and
/// the dynamic-language one.
#[derive(Clone, Copy, Debug, PartialEq, Eq, Structural)]
pub struct Targets {
    pub c: bool,
    pub dynamic: bool,
}

/// A reference to a type usable in both calling conventions: a named type
/// (a primitive or another declared type, passed through verbatim) or a
/// fixed-size array of a named element type.
#[derive(Clone, Debug)]
pub enum TypeRef {
    Name(String),
    Array(String, usize),
}

/// Mathematical view of a [`TypeRef`].
pub enum TypeRefV {
    Name(Seq<char>),
    Array(Seq<char>, nat),
}

impl View for TypeRef {
    type V = TypeRefV;

    open spec fn view(&self) -> TypeRefV {
        match self {
            TypeRef::Name(s) => TypeRefV::Name(s@),
            TypeRef::Array(s, n) => TypeRefV::Array(s@, *n as nat),
        }
    }
}

/// A named, typed slot: a struct field or a function parameter.
#[derive(Clone, Debug)]
pub struct Field {
    pub name: String,
    pub ty: TypeRef,
}

/// Mathematical view of a [`Field`].
pub struct FieldV {
    pub name: Seq<char>,
    pub ty: TypeRefV,
}

impl View for Field {
    type V = FieldV;

    open spec fn view(&self) -> FieldV {
        FieldV { name: self.name@, ty: self.ty@ }
    }
}

/// An enum declaration: a simple tag enumeration with no associated data.
#[derive(Clone, Debug)]
pub struct EnumDecl {
    pub name: String,
    pub variants: Vec<String>,
    pub doc: String,
}

/// Mathematical view of an [`EnumDecl`].
pub struct EnumDeclV {
    pub name: Seq<char>,
    pub variants: Seq<Seq<char>>,
    pub doc: Seq<char>,
}

impl View for EnumDecl {
    type V = EnumDeclV;

    open spec fn view(&self) -> EnumDeclV {
        EnumDeclV {
            name: self.name@,
            variants: self.variants.deep_view(),
            doc: self.doc@,
        }
    }
}

/// A struct declaration: an ordered list of typed fields.
#[derive(Clone, Debug)]
pub struct StructDecl {
    pub name: String,
    pub fields: Vec<Field>,
    pub doc: String,
}

/// Mathematical view of a [`StructDecl`].
pub struct StructDeclV {
    pub name: Seq<char>,
    pub fields: Seq<FieldV>,
    pub doc: Seq<char>,
}

impl View for StructDecl {
    type V = StructDeclV;

    open spec fn view(&self) -> StructDeclV {
        StructDeclV {
            name: self.name@,
            fields: self.fields@.map_values(|f: Field| f@),
            doc: self.doc@,
        }
    }
}

/// A type declaration: an enum or a struct.
#[derive(Clone, Debug)]
pub enum TypeDecl {
    Enum(EnumDecl),
    Struct(StructDecl),
}

/// Mathematical view of a [`TypeDecl`].
pub enum TypeDeclV {
    Enum(EnumDeclV),
    Struct(StructDeclV),
}

impl View for TypeDecl {
    type V = TypeDeclV;

    open spec fn view(&self) -> TypeDeclV {
        match self {
            TypeDecl::Enum(e) => TypeDeclV::Enum(e@),
            TypeDecl::Struct(s) => TypeDeclV::Struct(s@),
        }
    }
}

/// The declared name of a type declaration.
pub open spec fn type_decl_name(t: TypeDeclV) -> Seq<char> {
    match t {
        TypeDeclV::Enum(e) => e.name,
        TypeDeclV::Struct(s) => s.name,
    }
}

/// A function declaration.
///
/// `name` is the raw declared name, before suffix stripping; `variant`
/// records the declaration keyword (`fn`, `fn_c` or `fn_py`); `doc_c` and
/// `doc_py` are the per-target documentation strings after resolution;
/// `body` is the opaque executable payload, carried through verbatim.
#[derive(Clone, Debug)]
pub struct FunctionDecl {
    pub name: String,
    pub params: Vec<Field>,
    pub ret: Option<TypeRef>,
    pub variant: Variant,
    pub doc_c: String,
    pub doc_py: String,
    pub body: String,
}

/// Mathematical view of a [`FunctionDecl`].
pub struct FunctionDeclV {
    pub name: Seq<char>,
    pub params: Seq<FieldV>,
    pub ret: Option<TypeRefV>,
    pub variant: Variant,
    pub doc_c: Seq<char>,
    pub doc_py: Seq<char>,
    pub body: Seq<char>,
}

impl View for FunctionDecl {
    type V = FunctionDeclV;

    open spec fn view(&self) -> FunctionDeclV {
        FunctionDeclV {
            name: self.name@,
            params: self.params@.map_values(|f: Field| f@),
            ret: match self.ret {
                Option::Some(t) => Option::Some(t@),
                Option::None => Option::None,
            },
            variant: self.variant,
            doc_c: self.doc_c@,
            doc_py: self.doc_py@,
            body: self.body@,
        }
    }
}

/// A parsed module schema: the single source of truth both export
/// surfaces are derived from.
#[derive(Clone, Debug)]
pub struct ModuleSpec {
    pub name: String,
    pub types: Vec<TypeDecl>,
    pub functions: Vec<FunctionDecl>,
}

/// Mathematical view of a [`ModuleSpec`].
pub struct ModuleSpecV {
    pub name: Seq<char>,
    pub types: Seq<TypeDeclV>,
    pub functions: Seq<FunctionDeclV>,
}

impl View for ModuleSpec {
    type V = ModuleSpecV;

    open spec fn view(&self) -> ModuleSpecV {
        ModuleSpecV {
            name: self.name@,
            types: self.types@.map_values(|t: TypeDecl| t@),
            functions: self.functions@.map_values(|f: FunctionDecl| f@),
        }
    }
}

/// The flat surface syntax's module description: a module name and lists
/// of already-declared item names to register, by reference.
#[derive(Clone, Debug)]
pub struct ModuleRefs {
    pub name: String,
    pub types: Vec<String>,
    pub functions: Vec<String>,
}

/// Mathematical view of a [`ModuleRefs`].
pub struct ModuleRefsV {
    pub name: Seq<char>,
    pub types: Seq<Seq<char>>,
    pub functions: Seq<Seq<char>>,
}

impl View for ModuleRefs {
    type V = ModuleRefsV;

    open spec fn view(&self) -> ModuleRefsV {
        ModuleRefsV {
            name: self.name@,
            types: self.types.deep_view(),
            functions: self.functions.deep_view(),
        }
    }
}

} // verus!
