//! The type and function emitters.
//!
//! Emission turns each declaration into a description of the artifacts a
//! build produces for it.  A type declaration becomes a layout-stable
//! record or tag definition — the field and variant order equals the
//! declaration order, so both export surfaces agree on the layout — and,
//! in a dynamic-enabled build, a class binding (for structs: a read/write
//! accessor for every field plus a value-clone and a debug
//! representation).  A function declaration becomes up to two entry
//! points on one underlying implementation: a foreign-linked, unmangled
//! one documented with `doc_c`, and a dynamic-callable one documented
//! with `doc_py`, present exactly as the declaration's variant is active
//! in the build.

use vstd::prelude::*;
use crate::model::{EnumDecl, EnumDeclV, Field, FieldV, FunctionDecl, FunctionDeclV, StructDecl,
    StructDeclV, Targets, TypeDecl, TypeDeclV, TypeRef, TypeRefV, Variant};
use crate::naming::{active_targets, exported_symbol, spec_active_targets, spec_exported_symbol};
use crate::parser::{sp_item, sp_item_err, Construct, Item, ItemV, SchemaSyntaxError};
use crate::parser::{parse_item};
use crate::token::{tokens_view, Tok, TokV};

verus! {

/// The memory layout of an emitted type: a record with ordered fields,
/// or a tag enumeration with ordered variants and no associated data.
#[derive(Clone, Debug)]
pub enum Layout {
    Record(Vec<Field>),
    Tag(Vec<String>),
}

/// Mathematical view of a [`Layout`].
pub enum LayoutV {
    Record(Seq<FieldV>),
    Tag(Seq<Seq<char>>),
}

impl View for Layout {
    type V = LayoutV;

    open spec fn view(&self) -> LayoutV {
        match self {
            Layout::Record(fields) => LayoutV::Record(fields@.map_values(|f: Field| f@)),
            Layout::Tag(variants) => LayoutV::Tag(variants.deep_view()),
        }
    }
}

/// The dynamic-configuration class binding of an emitted type:
/// `accessors` lists the fields that receive a read/write accessor pair
/// (a get and a set binding each), in field order; `has_clone` and
/// `has_debug` record whether a value-clone and a human-readable debug
/// representation are bound as well.
#[derive(Clone, Debug)]
pub struct ClassBinding {
    pub accessors: Vec<String>,
    pub has_clone: bool,
    pub has_debug: bool,
}

/// Mathematical view of a [`ClassBinding`].
pub struct ClassBindingV {
    pub accessors: Seq<Seq<char>>,
    pub has_clone: bool,
    pub has_debug: bool,
}

impl View for ClassBinding {
    type V = ClassBindingV;

    open spec fn view(&self) -> ClassBindingV {
        ClassBindingV {
            accessors: self.accessors.deep_view(),
            has_clone: self.has_clone,
            has_debug: self.has_debug,
        }
    }
}

/// One emitted type: a layout-stable definition carrying its resolved
/// documentation, plus the class binding when the dynamic configuration
/// is enabled (`None` in a C-only build).
#[derive(Clone, Debug)]
pub struct EmittedType {
    pub name: String,
    pub doc: String,
    pub layout: Layout,
    pub class: Option<ClassBinding>,
}

/// Mathematical view of an [`EmittedType`].
pub struct EmittedTypeV {
    pub name: Seq<char>,
    pub doc: Seq<char>,
    pub layout: LayoutV,
    pub class: Option<ClassBindingV>,
}

impl View for EmittedType {
    type V = EmittedTypeV;

    open spec fn view(&self) -> EmittedTypeV {
        EmittedTypeV {
            name: self.name@,
            doc: self.doc@,
            layout: self.layout@,
            class: match &self.class {
                Option::Some(c) => Option::Some(c@),
                Option::None => Option::None,
            },
        }
    }
}

/// One emitted function: the canonical exported symbol, the signature
/// and opaque body carried through verbatim, and up to two entry points
/// on that one implementation.  `c_entry` is `Some(doc_c)` exactly when
/// a foreign-linked, unmangled entry point is emitted; `py_entry` is
/// `Some(doc_py)` exactly when a dynamic-callable entry point is
/// emitted.
#[derive(Clone, Debug)]
pub struct EmittedFunction {
    pub symbol: String,
    pub params: Vec<Field>,
    pub ret: Option<TypeRef>,
    pub body: String,
    pub c_entry: Option<String>,
    pub py_entry: Option<String>,
}

/// Mathematical view of an [`EmittedFunction`].
pub struct EmittedFunctionV {
    pub symbol: Seq<char>,
    pub params: Seq<FieldV>,
    pub ret: Option<TypeRefV>,
    pub body: Seq<char>,
    pub c_entry: Option<Seq<char>>,
    pub py_entry: Option<Seq<char>>,
}

impl View for EmittedFunction {
    type V = EmittedFunctionV;

    open spec fn view(&self) -> EmittedFunctionV {
        EmittedFunctionV {
            symbol: self.symbol@,
            params: self.params@.map_values(|f: Field| f@),
            ret: match &self.ret {
                Option::Some(t) => Option::Some(t@),
                Option::None => Option::None,
            },
            body: self.body@,
            c_entry: match &self.c_entry {
                Option::Some(s) => Option::Some(s@),
                Option::None => Option::None,
            },
            py_entry: match &self.py_entry {
                Option::Some(s) => Option::Some(s@),
                Option::None => Option::None,
            },
        }
    }
}

/// What an enum declaration emits: a tag enumeration, exposed the same
/// way on both surfaces, and in a dynamic-enabled build a class binding
/// with no accessors.
pub open spec fn spec_emit_enum(d: EnumDeclV, dynamic_enabled: bool) -> EmittedTypeV {
    EmittedTypeV {
        name: d.name,
        doc: d.doc,
        layout: LayoutV::Tag(d.variants),
        class: if dynamic_enabled {
            Option::Some(
                ClassBindingV { accessors: Seq::empty(), has_clone: false, has_debug: false },
            )
        } else {
            Option::None
        },
    }
}

/// What a struct declaration emits: a record with the fields in
/// declaration order, and in a dynamic-enabled build a class binding
/// with a read/write accessor per field plus clone and debug bindings.
pub open spec fn spec_emit_struct(d: StructDeclV, dynamic_enabled: bool) -> EmittedTypeV {
    EmittedTypeV {
        name: d.name,
        doc: d.doc,
        layout: LayoutV::Record(d.fields),
        class: if dynamic_enabled {
            Option::Some(
                ClassBindingV {
                    accessors: d.fields.map_values(|f: FieldV| f.name),
                    has_clone: true,
                    has_debug: true,
                },
            )
        } else {
            Option::None
        },
    }
}

/// What a type declaration emits.
pub open spec fn spec_emit_type(d: TypeDeclV, dynamic_enabled: bool) -> EmittedTypeV {
    match d {
        TypeDeclV::Enum(e) => spec_emit_enum(e, dynamic_enabled),
        TypeDeclV::Struct(s) => spec_emit_struct(s, dynamic_enabled),
    }
}

/// What a function declaration emits: each entry point exactly as its
/// variant is active in the build, on the exported (suffix-stripped)
/// symbol.
pub open spec fn spec_emit_fn(f: FunctionDeclV, dynamic_enabled: bool) -> EmittedFunctionV {
    let targets = spec_active_targets(f.variant, dynamic_enabled);
    EmittedFunctionV {
        symbol: spec_exported_symbol(f.variant, f.name),
        params: f.params,
        ret: f.ret,
        body: f.body,
        c_entry: if targets.c {
            Option::Some(f.doc_c)
        } else {
            Option::None
        },
        py_entry: if targets.dynamic {
            Option::Some(f.doc_py)
        } else {
            Option::None
        },
    }
}

/// A copy of a type reference, preserving its view.
pub fn clone_type_ref(t: &TypeRef) -> (r: TypeRef)
    ensures
        r@ == t@,
{
    match t {
        TypeRef::Name(s) => TypeRef::Name(s.clone()),
        TypeRef::Array(s, n) => TypeRef::Array(s.clone(), *n),
    }
}

/// A copy of a field list, preserving its view.
pub fn clone_fields(v: &Vec<Field>) -> (r: Vec<Field>)
    ensures
        r@.map_values(|f: Field| f@) == v@.map_values(|f: Field| f@),
{
    let mut r: Vec<Field> = Vec::new();
    let mut i: usize = 0;
    proof {
        assert(r@.map_values(|f: Field| f@) =~= v@.map_values(|f: Field| f@).take(0));
    }
    while i < v.len()
        invariant
            i <= v.len(),
            r@.map_values(|f: Field| f@) == v@.map_values(|f: Field| f@).take(i as int),
        decreases v.len() - i,
    {
        let f = Field { name: v[i].name.clone(), ty: clone_type_ref(&v[i].ty) };
        let ghost prev = r@.map_values(|x: Field| x@);
        r.push(f);
        proof {
            assert(r@.map_values(|x: Field| x@) =~= prev.push(v@[i as int]@));
            assert(prev.push(v@[i as int]@) =~= v@.map_values(|x: Field| x@).take(i + 1));
        }
        i = i + 1;
    }
    proof {
        assert(v@.map_values(|f: Field| f@).take(v@.len() as int) =~= v@.map_values(
            |f: Field| f@,
        ));
    }
    r
}

/// A copy of a name list, preserving its view.
pub fn clone_names(v: &Vec<String>) -> (r: Vec<String>)
    ensures
        r.deep_view() == v.deep_view(),
{
    let mut r: Vec<String> = Vec::new();
    let mut i: usize = 0;
    proof {
        assert(r.deep_view() =~= v.deep_view().take(0));
    }
    while i < v.len()
        invariant
            i <= v.len(),
            r.deep_view() == v.deep_view().take(i as int),
        decreases v.len() - i,
    {
        let ghost prev = r.deep_view();
        r.push(v[i].clone());
        proof {
            assert(r.deep_view() =~= prev.push(v@[i as int]@));
            assert(prev.push(v@[i as int]@) =~= v.deep_view().take(i + 1));
        }
        i = i + 1;
    }
    proof {
        assert(v.deep_view().take(v@.len() as int) =~= v.deep_view());
    }
    r
}

/// The field names of a field list, in order.
fn field_names(v: &Vec<Field>) -> (r: Vec<String>)
    ensures
        r.deep_view() == v@.map_values(|f: Field| f@).map_values(|f: FieldV| f.name),
{
    let ghost target = v@.map_values(|f: Field| f@).map_values(|f: FieldV| f.name);
    let mut r: Vec<String> = Vec::new();
    let mut i: usize = 0;
    proof {
        assert(r.deep_view() =~= target.take(0));
    }
    while i < v.len()
        invariant
            i <= v.len(),
            target == v@.map_values(|f: Field| f@).map_values(|f: FieldV| f.name),
            target.len() == v@.len(),
            r.deep_view() == target.take(i as int),
        decreases v.len() - i,
    {
        let ghost prev = r.deep_view();
        r.push(v[i].name.clone());
        proof {
            assert(r.deep_view() =~= prev.push(v@[i as int]@.name));
            assert(prev.push(v@[i as int]@.name) =~= target.take(i + 1));
        }
        i = i + 1;
    }
    proof {
        assert(target.take(v@.len() as int) =~= target);
    }
    r
}

/// Emits an enum declaration for the given build.
pub fn emit_enum(d: &EnumDecl, dynamic_enabled: bool) -> (r: EmittedType)
    ensures
        r@ == spec_emit_enum(d@, dynamic_enabled),
{
    EmittedType {
        name: d.name.clone(),
        doc: d.doc.clone(),
        layout: Layout::Tag(clone_names(&d.variants)),
        class: if dynamic_enabled {
            let empty_accessors: Vec<String> = Vec::new();
            proof {
                assert(empty_accessors.deep_view() =~= Seq::<Seq<char>>::empty());
            }
            Option::Some(
                ClassBinding { accessors: empty_accessors, has_clone: false, has_debug: false },
            )
        } else {
            Option::None
        },
    }
}

/// Emits a struct declaration for the given build.
pub fn emit_struct(d: &StructDecl, dynamic_enabled: bool) -> (r: EmittedType)
    ensures
        r@ == spec_emit_struct(d@, dynamic_enabled),
{
    EmittedType {
        name: d.name.clone(),
        doc: d.doc.clone(),
        layout: Layout::Record(clone_fields(&d.fields)),
        class: if dynamic_enabled {
            Option::Some(
                ClassBinding {
                    accessors: field_names(&d.fields),
                    has_clone: true,
                    has_debug: true,
                },
            )
        } else {
            Option::None
        },
    }
}

/// Emits a type declaration for the given build.
pub fn emit_type(d: &TypeDecl, dynamic_enabled: bool) -> (r: EmittedType)
    ensures
        r@ == spec_emit_type(d@, dynamic_enabled),
{
    match d {
        TypeDecl::Enum(e) => emit_enum(e, dynamic_enabled),
        TypeDecl::Struct(s) => emit_struct(s, dynamic_enabled),
    }
}

/// Emits a function declaration for the given build.
pub fn emit_function(f: &FunctionDecl, dynamic_enabled: bool) -> (r: EmittedFunction)
    ensures
        r@ == spec_emit_fn(f@, dynamic_enabled),
{
    let targets = active_targets(f.variant, dynamic_enabled);
    EmittedFunction {
        symbol: exported_symbol(f.variant, &f.name),
        params: clone_fields(&f.params),
        ret: match &f.ret {
            Option::Some(t) => Option::Some(clone_type_ref(t)),
            Option::None => Option::None,
        },
        body: f.body.clone(),
        c_entry: if targets.c {
            Option::Some(f.doc_c.clone())
        } else {
            Option::None
        },
        py_entry: if targets.dynamic {
            Option::Some(f.doc_py.clone())
        } else {
            Option::None
        },
    }
}

/// Law: no single build emits both halves of a `COnly`/`PyOnly` pair —
/// whatever the build configuration, at most one of the two
/// declarations produces an entry point on each surface.
pub proof fn lemma_pair_exclusive_emission(
    fc: FunctionDeclV,
    fpy: FunctionDeclV,
    dynamic_enabled: bool,
)
    requires
        fc.variant is COnly,
        fpy.variant is PyOnly,
    ensures
        !(spec_emit_fn(fc, dynamic_enabled).c_entry is Some && spec_emit_fn(
            fpy,
            dynamic_enabled,
        ).c_entry is Some),
        !(spec_emit_fn(fc, dynamic_enabled).py_entry is Some && spec_emit_fn(
            fpy,
            dynamic_enabled,
        ).py_entry is Some),
{
}

/// A whole token sequence parsed as one enum declaration (with leading
/// attributes), as the standalone enum entry point accepts it.
pub open spec fn sp_enum_input(t: Seq<TokV>) -> Option<EnumDeclV> {
    match sp_item(t, 0) {
        Option::Some((item, j)) => match item {
            ItemV::Ty(d) => match d {
                TypeDeclV::Enum(e) => if j == t.len() {
                    Option::Some(e)
                } else {
                    Option::None
                },
                TypeDeclV::Struct(s) => Option::None,
            },
            ItemV::Fun(f) => Option::None,
        },
        Option::None => Option::None,
    }
}

/// A whole token sequence parsed as one struct declaration.
pub open spec fn sp_struct_input(t: Seq<TokV>) -> Option<StructDeclV> {
    match sp_item(t, 0) {
        Option::Some((item, j)) => match item {
            ItemV::Ty(d) => match d {
                TypeDeclV::Struct(s) => if j == t.len() {
                    Option::Some(s)
                } else {
                    Option::None
                },
                TypeDeclV::Enum(e) => Option::None,
            },
            ItemV::Fun(f) => Option::None,
        },
        Option::None => Option::None,
    }
}

/// A whole token sequence parsed as one function declaration of the
/// given variant.
pub open spec fn sp_fn_input(t: Seq<TokV>, variant: Variant) -> Option<FunctionDeclV> {
    match sp_item(t, 0) {
        Option::Some((item, j)) => match item {
            ItemV::Fun(f) => if j == t.len() && f.variant == variant {
                Option::Some(f)
            } else {
                Option::None
            },
            ItemV::Ty(d) => Option::None,
        },
        Option::None => Option::None,
    }
}

/// The error position a failed standalone enum export reports: the
/// parse failure's position, the end of the parsed declaration when
/// tokens are left over, or the start for another kind of declaration.
pub open spec fn sp_enum_input_err(t: Seq<TokV>) -> int {
    match sp_item(t, 0) {
        Option::Some((item, j)) => match item {
            ItemV::Ty(d) => match d {
                TypeDeclV::Enum(e) => j,
                TypeDeclV::Struct(st) => 0,
            },
            ItemV::Fun(f) => 0,
        },
        Option::None => sp_item_err(t, 0),
    }
}

/// The error position a failed standalone struct export reports.
pub open spec fn sp_struct_input_err(t: Seq<TokV>) -> int {
    match sp_item(t, 0) {
        Option::Some((item, j)) => match item {
            ItemV::Ty(d) => match d {
                TypeDeclV::Struct(st) => j,
                TypeDeclV::Enum(e) => 0,
            },
            ItemV::Fun(f) => 0,
        },
        Option::None => sp_item_err(t, 0),
    }
}

/// The error position a failed standalone function export reports.
pub open spec fn sp_fn_input_err(t: Seq<TokV>) -> int {
    match sp_item(t, 0) {
        Option::Some((item, j)) => match item {
            ItemV::Fun(f) => j,
            ItemV::Ty(d) => 0,
        },
        Option::None => sp_item_err(t, 0),
    }
}

/// Exports an enum: parses one attributed enum declaration and emits its
/// layout-stable tag enumeration (and class binding, when the dynamic
/// configuration is enabled).
pub fn cpy_enum(toks: &Vec<Tok>, dynamic_enabled: bool) -> (r: Result<
    EmittedType,
    SchemaSyntaxError,
>)
    ensures
        (match r {
            Result::Ok(e) => sp_enum_input(tokens_view(toks@)) matches Option::Some(d) && e@
                == spec_emit_enum(d, dynamic_enabled),
            Result::Err(err) => sp_enum_input(tokens_view(toks@)) is None && err.at as int
                == sp_enum_input_err(tokens_view(toks@)),
        }),
{
    match parse_item(toks, 0) {
        Result::Ok((item, j)) => match item {
            Item::Ty(TypeDecl::Enum(d)) => {
                if j == toks.len() {
                    Result::Ok(emit_enum(&d, dynamic_enabled))
                } else {
                    Result::Err(SchemaSyntaxError { at: j, expected: Construct::EndOfInput })
                }
            },
            _ => Result::Err(SchemaSyntaxError { at: 0, expected: Construct::EnumDecl }),
        },
        Result::Err(e) => Result::Err(e),
    }
}

/// Exports a struct: parses one attributed struct declaration and emits
/// its layout-stable record (and accessor class binding, when the
/// dynamic configuration is enabled).
pub fn cpy_struct(toks: &Vec<Tok>, dynamic_enabled: bool) -> (r: Result<
    EmittedType,
    SchemaSyntaxError,
>)
    ensures
        (match r {
            Result::Ok(e) => sp_struct_input(tokens_view(toks@)) matches Option::Some(d) && e@
                == spec_emit_struct(d, dynamic_enabled),
            Result::Err(err) => sp_struct_input(tokens_view(toks@)) is None && err.at as int
                == sp_struct_input_err(tokens_view(toks@)),
        }),
{
    match parse_item(toks, 0) {
        Result::Ok((item, j)) => match item {
            Item::Ty(TypeDecl::Struct(d)) => {
                if j == toks.len() {
                    Result::Ok(emit_struct(&d, dynamic_enabled))
                } else {
                    Result::Err(SchemaSyntaxError { at: j, expected: Construct::EndOfInput })
                }
            },
            _ => Result::Err(SchemaSyntaxError { at: 0, expected: Construct::StructDecl }),
        },
        Result::Err(e) => Result::Err(e),
    }
}

/// Exports a shared function: parses one `fn`-kind declaration and emits
/// the foreign-linked entry point, plus the dynamic-callable wrapper of
/// the same implementation when the dynamic configuration is enabled.
pub fn cpy_fn(toks: &Vec<Tok>, dynamic_enabled: bool) -> (r: Result<
    EmittedFunction,
    SchemaSyntaxError,
>)
    ensures
        (match r {
            Result::Ok(e) => sp_fn_input(tokens_view(toks@), Variant::Shared) matches Option::Some(
                f,
            ) && e@ == spec_emit_fn(f, dynamic_enabled),
            Result::Err(err) => sp_fn_input(tokens_view(toks@), Variant::Shared) is None
                && err.at as int == sp_fn_input_err(tokens_view(toks@)),
        }),
{
    cpy_fn_variant(toks, dynamic_enabled, Variant::Shared)
}

/// Exports a C-exclusive function: parses one `fn_c`-kind declaration
/// and emits only the foreign-linked entry point, absent entirely from a
/// dynamic-enabled build, under the suffix-stripped symbol.
pub fn cpy_fn_c(toks: &Vec<Tok>, dynamic_enabled: bool) -> (r: Result<
    EmittedFunction,
    SchemaSyntaxError,
>)
    ensures
        (match r {
            Result::Ok(e) => sp_fn_input(tokens_view(toks@), Variant::COnly) matches Option::Some(
                f,
            ) && e@ == spec_emit_fn(f, dynamic_enabled),
            Result::Err(err) => sp_fn_input(tokens_view(toks@), Variant::COnly) is None
                && err.at as int == sp_fn_input_err(tokens_view(toks@)),
        }),
{
    cpy_fn_variant(toks, dynamic_enabled, Variant::COnly)
}

/// Exports a dynamic-exclusive function: parses one `fn_py`-kind
/// declaration and emits only the dynamic-callable entry point, absent
/// entirely from a C-only build, under the suffix-stripped symbol.
pub fn cpy_fn_py(toks: &Vec<Tok>, dynamic_enabled: bool) -> (r: Result<
    EmittedFunction,
    SchemaSyntaxError,
>)
    ensures
        (match r {
            Result::Ok(e) => sp_fn_input(tokens_view(toks@), Variant::PyOnly) matches Option::Some(
                f,
            ) && e@ == spec_emit_fn(f, dynamic_enabled),
            Result::Err(err) => sp_fn_input(tokens_view(toks@), Variant::PyOnly) is None
                && err.at as int == sp_fn_input_err(tokens_view(toks@)),
        }),
{
    cpy_fn_variant(toks, dynamic_enabled, Variant::PyOnly)
}

/// The shared interior of the three function export entry points.
fn cpy_fn_variant(toks: &Vec<Tok>, dynamic_enabled: bool, variant: Variant) -> (r: Result<
    EmittedFunction,
    SchemaSyntaxError,
>)
    ensures
        (match r {
            Result::Ok(e) => sp_fn_input(tokens_view(toks@), variant) matches Option::Some(f) && e@
                == spec_emit_fn(f, dynamic_enabled),
            Result::Err(err) => sp_fn_input(tokens_view(toks@), variant) is None && err.at
                as int == sp_fn_input_err(tokens_view(toks@)),
        }),
{
    match parse_item(toks, 0) {
        Result::Ok((item, j)) => match item {
            Item::Fun(f) => {
                if j == toks.len() && f.variant == variant {
                    Result::Ok(emit_function(&f, dynamic_enabled))
                } else {
                    Result::Err(SchemaSyntaxError { at: j, expected: Construct::FnDecl })
                }
            },
            _ => Result::Err(SchemaSyntaxError { at: 0, expected: Construct::FnDecl }),
        },
        Result::Err(e) => Result::Err(e),
    }
}

} // verus!
