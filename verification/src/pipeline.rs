//! The whole-module pipeline: validation and emission.
//!
//! A parsed module is validated — within one build configuration every
//! exported symbol must be unique; only a `COnly`/`PyOnly` pair, which
//! can never coexist in a build, may share a post-strip name — and then
//! emitted: every type and every function, in declaration order, plus
//! the registration table when the dynamic configuration is enabled.

use vstd::prelude::*;
use crate::emit::{emit_function, emit_type, spec_emit_fn, spec_emit_type, EmittedFunction,
    EmittedFunctionV, EmittedType, EmittedTypeV};
use crate::model::{FunctionDecl, FunctionDeclV, ModuleSpec, ModuleSpecV, TypeDecl, TypeDeclV};
use crate::model::type_decl_name;
use crate::naming::{active_targets, exported_symbol, spec_active_targets, spec_exported_symbol};
use crate::parser::{parse_module, sp_module, sp_module_err, SchemaSyntaxError};
use crate::registrar::{register_module, spec_dynamic_active, spec_registration, table_view,
    RegEntry, RegEntryV};
use crate::token::{tokens_view, Tok};

verus! {

/// Two declarations resolved to the same exported symbol within one
/// build configuration: a fatal build-time failure.  `symbol` is the
/// colliding name.
#[derive(Clone, Debug)]
pub struct DuplicateSymbolError {
    pub symbol: String,
}

/// Whether a declaration is active on the foreign surface of a C-only
/// build: `Shared` and `COnly` are, `PyOnly` is not.
pub open spec fn spec_c_active(f: FunctionDeclV) -> bool {
    spec_active_targets(f.variant, false).c
}

/// The declared type names of a module, in order.
pub open spec fn spec_type_names(m: ModuleSpecV) -> Seq<Seq<char>> {
    m.types.map_values(|t: TypeDeclV| type_decl_name(t))
}

/// The exported symbols of the C-only build's foreign surface, in
/// declaration order.
pub open spec fn spec_c_symbols(fns: Seq<FunctionDeclV>) -> Seq<Seq<char>>
    decreases fns.len(),
{
    if fns.len() == 0 {
        Seq::empty()
    } else {
        spec_c_symbols(fns.drop_last()) + (if spec_c_active(fns.last()) {
            seq![spec_exported_symbol(fns.last().variant, fns.last().name)]
        } else {
            Seq::empty()
        })
    }
}

/// The exported symbols of the dynamic-enabled build's callable
/// surface, in declaration order.
pub open spec fn spec_py_symbols(fns: Seq<FunctionDeclV>) -> Seq<Seq<char>>
    decreases fns.len(),
{
    if fns.len() == 0 {
        Seq::empty()
    } else {
        spec_py_symbols(fns.drop_last()) + (if spec_dynamic_active(fns.last()) {
            seq![spec_exported_symbol(fns.last().variant, fns.last().name)]
        } else {
            Seq::empty()
        })
    }
}

/// Whether a name list is free of duplicates.
pub open spec fn distinct_names(s: Seq<Seq<char>>) -> bool {
    forall|i: int, j: int| 0 <= i < j < s.len() ==> s[i] != s[j]
}

/// Whether the name `v` occurs at two positions of the list.
pub open spec fn repeats_in(s: Seq<Seq<char>>, v: Seq<char>) -> bool {
    exists|i: int, j: int| 0 <= i < j < s.len() && s[i] == v && s[j] == v
}

/// Whether a module's exported names collide nowhere: type names are
/// unique, and on each build configuration's surface the exported
/// function symbols are unique.  A `COnly`/`PyOnly` pair sharing a
/// post-strip name is legitimate: its halves never stand on one
/// surface.
pub open spec fn spec_symbols_ok(m: ModuleSpecV) -> bool {
    &&& distinct_names(spec_type_names(m))
    &&& distinct_names(spec_c_symbols(m.functions))
    &&& distinct_names(spec_py_symbols(m.functions))
}

/// The first name that repeats in the list, if any.
fn first_duplicate(v: &Vec<String>) -> (r: Option<String>)
    ensures
        r is None <==> distinct_names(v.deep_view()),
        r matches Option::Some(d) ==> repeats_in(v.deep_view(), d@),
{
    let n: usize = v.len();
    let mut i: usize = 0;
    while i < n
        invariant
            i <= n,
            n == v@.len(),
            forall|a: int, b: int| 0 <= a < b < n && a < i ==> v.deep_view()[a] != v.deep_view()[b],
        decreases n - i,
    {
        let mut j: usize = i + 1;
        while j < n
            invariant
                i < j <= n,
                n == v@.len(),
                forall|b: int| i < b < j ==> v.deep_view()[i as int] != v.deep_view()[b],
            decreases n - j,
        {
            if v[i] == v[j] {
                proof {
                    assert(v.deep_view()[i as int] == v@[i as int]@);
                    assert(v.deep_view()[j as int] == v@[j as int]@);
                    assert(!distinct_names(v.deep_view()));
                    assert(repeats_in(v.deep_view(), v@[i as int]@));
                }
                return Option::Some(v[i].clone());
            }
            j = j + 1;
        }
        i = i + 1;
    }
    Option::None
}

/// The declared type names of a module, as values.
fn collect_type_names(m: &ModuleSpec) -> (r: Vec<String>)
    ensures
        r.deep_view() == spec_type_names(m@),
{
    let ghost target = spec_type_names(m@);
    let mut r: Vec<String> = Vec::new();
    let mut i: usize = 0;
    proof {
        assert(r.deep_view() =~= target.take(0));
    }
    while i < m.types.len()
        invariant
            i <= m.types.len(),
            target == spec_type_names(m@),
            target.len() == m.types@.len(),
            r.deep_view() == target.take(i as int),
        decreases m.types.len() - i,
    {
        let name: String = match &m.types[i] {
            TypeDecl::Enum(e) => e.name.clone(),
            TypeDecl::Struct(s) => s.name.clone(),
        };
        let ghost prev = r.deep_view();
        r.push(name);
        proof {
            assert(m@.types[i as int] == m.types@[i as int]@);
            assert(r.deep_view() =~= prev.push(type_decl_name(m@.types[i as int])));
            assert(prev.push(type_decl_name(m@.types[i as int])) =~= target.take(i + 1));
        }
        i = i + 1;
    }
    proof {
        assert(target.take(m.types@.len() as int) =~= target);
    }
    r
}

/// The exported symbols of one build surface, as values: the C-only
/// foreign surface when `c_surface`, else the dynamic callable surface.
fn collect_symbols(fns: &Vec<FunctionDecl>, c_surface: bool) -> (r: Vec<String>)
    ensures
        c_surface ==> r.deep_view() == spec_c_symbols(fns@.map_values(|f: FunctionDecl| f@)),
        !c_surface ==> r.deep_view() == spec_py_symbols(fns@.map_values(|f: FunctionDecl| f@)),
{
    let ghost all = fns@.map_values(|f: FunctionDecl| f@);
    let mut r: Vec<String> = Vec::new();
    let mut i: usize = 0;
    proof {
        assert(all.take(0) =~= Seq::<FunctionDeclV>::empty());
        assert(r.deep_view() =~= Seq::<Seq<char>>::empty());
    }
    while i < fns.len()
        invariant
            i <= fns.len(),
            all == fns@.map_values(|f: FunctionDecl| f@),
            all.len() == fns@.len(),
            c_surface ==> r.deep_view() == spec_c_symbols(all.take(i as int)),
            !c_surface ==> r.deep_view() == spec_py_symbols(all.take(i as int)),
        decreases fns.len() - i,
    {
        let f = &fns[i];
        proof {
            assert(all.take(i + 1).drop_last() =~= all.take(i as int));
            assert(all.take(i + 1).last() == all[i as int]);
            assert(all[i as int] == fns@[i as int]@);
        }
        let targets = active_targets(f.variant, !c_surface);
        let active: bool = if c_surface {
            targets.c
        } else {
            targets.dynamic
        };
        if active {
            let ghost prev = r.deep_view();
            r.push(exported_symbol(f.variant, &f.name));
            proof {
                assert(r.deep_view() =~= prev.push(spec_exported_symbol(
                    all[i as int].variant,
                    all[i as int].name,
                )));
                if c_surface {
                    assert(spec_c_symbols(all.take(i + 1)) =~= prev.push(spec_exported_symbol(
                        all[i as int].variant,
                        all[i as int].name,
                    )));
                } else {
                    assert(spec_py_symbols(all.take(i + 1)) =~= prev.push(spec_exported_symbol(
                        all[i as int].variant,
                        all[i as int].name,
                    )));
                }
            }
        } else {
            proof {
                if c_surface {
                    assert(spec_c_symbols(all.take(i + 1)) =~= spec_c_symbols(all.take(i as int)));
                } else {
                    assert(spec_py_symbols(all.take(i + 1)) =~= spec_py_symbols(
                        all.take(i as int),
                    ));
                }
            }
        }
        i = i + 1;
    }
    proof {
        assert(all.take(fns@.len() as int) =~= all);
    }
    r
}

/// Checks the module's exported names for collisions: type names must
/// be unique, and on each configuration's surface the exported function
/// symbols must be unique.  A failure carries a name that does repeat
/// on one of those three surfaces.
pub fn validate_symbols(m: &ModuleSpec) -> (r: Result<(), DuplicateSymbolError>)
    ensures
        r is Ok <==> spec_symbols_ok(m@),
        r matches Result::Err(d) ==> (repeats_in(spec_type_names(m@), d.symbol@) || repeats_in(
            spec_c_symbols(m@.functions),
            d.symbol@,
        ) || repeats_in(spec_py_symbols(m@.functions), d.symbol@)),
{
    let type_names = collect_type_names(m);
    if let Option::Some(s) = first_duplicate(&type_names) {
        return Result::Err(DuplicateSymbolError { symbol: s });
    }
    let c_symbols = collect_symbols(&m.functions, true);
    if let Option::Some(s) = first_duplicate(&c_symbols) {
        return Result::Err(DuplicateSymbolError { symbol: s });
    }
    let py_symbols = collect_symbols(&m.functions, false);
    if let Option::Some(s) = first_duplicate(&py_symbols) {
        return Result::Err(DuplicateSymbolError { symbol: s });
    }
    Result::Ok(())
}

/// Everything one build emits for a module: the type definitions and
/// function entry points in declaration order, and, when the dynamic
/// configuration is enabled, the registration table.
#[derive(Clone, Debug)]
pub struct Emission {
    pub types: Vec<EmittedType>,
    pub functions: Vec<EmittedFunction>,
    pub registration: Option<Vec<RegEntry>>,
}

/// Mathematical view of an [`Emission`].
pub struct EmissionV {
    pub types: Seq<EmittedTypeV>,
    pub functions: Seq<EmittedFunctionV>,
    pub registration: Option<Seq<RegEntryV>>,
}

impl View for Emission {
    type V = EmissionV;

    open spec fn view(&self) -> EmissionV {
        EmissionV {
            types: self.types@.map_values(|t: EmittedType| t@),
            functions: self.functions@.map_values(|f: EmittedFunction| f@),
            registration: match &self.registration {
                Option::Some(table) => Option::Some(table_view(table@)),
                Option::None => Option::None,
            },
        }
    }
}

/// What one build emits for a module: each declaration emitted for the
/// active configuration, and the registration table exactly when the
/// dynamic configuration is enabled.
pub open spec fn spec_emission(m: ModuleSpecV, dynamic_enabled: bool) -> EmissionV {
    EmissionV {
        types: m.types.map_values(|t: TypeDeclV| spec_emit_type(t, dynamic_enabled)),
        functions: m.functions.map_values(|f: FunctionDeclV| spec_emit_fn(f, dynamic_enabled)),
        registration: if dynamic_enabled {
            Option::Some(spec_registration(m))
        } else {
            Option::None
        },
    }
}

/// Emits every declaration of the module for the given build, in
/// declaration order, and the registration table when the dynamic
/// configuration is enabled.
pub fn emit_module(m: &ModuleSpec, dynamic_enabled: bool) -> (r: Emission)
    ensures
        r@ == spec_emission(m@, dynamic_enabled),
{
    let ghost ttarget = m@.types.map_values(|t: TypeDeclV| spec_emit_type(t, dynamic_enabled));
    let mut types: Vec<EmittedType> = Vec::new();
    let mut i: usize = 0;
    proof {
        assert(types@.map_values(|t: EmittedType| t@) =~= ttarget.take(0));
    }
    while i < m.types.len()
        invariant
            i <= m.types.len(),
            ttarget == m@.types.map_values(|t: TypeDeclV| spec_emit_type(t, dynamic_enabled)),
            ttarget.len() == m.types@.len(),
            types@.map_values(|t: EmittedType| t@) == ttarget.take(i as int),
        decreases m.types.len() - i,
    {
        let e = emit_type(&m.types[i], dynamic_enabled);
        let ghost prev = types@.map_values(|t: EmittedType| t@);
        types.push(e);
        proof {
            assert(m@.types[i as int] == m.types@[i as int]@);
            assert(types@.map_values(|t: EmittedType| t@) =~= prev.push(spec_emit_type(
                m@.types[i as int],
                dynamic_enabled,
            )));
            assert(prev.push(spec_emit_type(m@.types[i as int], dynamic_enabled)) =~= ttarget.take(
                i + 1,
            ));
        }
        i = i + 1;
    }
    proof {
        assert(ttarget.take(m.types@.len() as int) =~= ttarget);
    }
    let ghost ftarget = m@.functions.map_values(|f: FunctionDeclV| spec_emit_fn(f, dynamic_enabled));
    let mut functions: Vec<EmittedFunction> = Vec::new();
    let mut j: usize = 0;
    proof {
        assert(functions@.map_values(|f: EmittedFunction| f@) =~= ftarget.take(0));
    }
    while j < m.functions.len()
        invariant
            j <= m.functions.len(),
            ftarget == m@.functions.map_values(
                |f: FunctionDeclV| spec_emit_fn(f, dynamic_enabled),
            ),
            ftarget.len() == m.functions@.len(),
            functions@.map_values(|f: EmittedFunction| f@) == ftarget.take(j as int),
        decreases m.functions.len() - j,
    {
        let e = emit_function(&m.functions[j], dynamic_enabled);
        let ghost prev = functions@.map_values(|f: EmittedFunction| f@);
        functions.push(e);
        proof {
            assert(m@.functions[j as int] == m.functions@[j as int]@);
            assert(functions@.map_values(|f: EmittedFunction| f@) =~= prev.push(spec_emit_fn(
                m@.functions[j as int],
                dynamic_enabled,
            )));
            assert(prev.push(spec_emit_fn(m@.functions[j as int], dynamic_enabled))
                =~= ftarget.take(j + 1));
        }
        j = j + 1;
    }
    proof {
        assert(ftarget.take(m.functions@.len() as int) =~= ftarget);
    }
    let registration = register_module(m, dynamic_enabled);
    Emission { types, functions, registration }
}

/// A build-time failure: the schema matched no production, or two
/// declarations collided on one exported symbol.
#[derive(Clone, Debug)]
pub enum BuildError {
    Syntax(SchemaSyntaxError),
    Duplicate(DuplicateSymbolError),
}

/// The whole build-time transformation on the nested form: parse the
/// schema, validate its exported names, and emit the build's artifacts.
/// Every failure is detected before anything is emitted; a failing item
/// aborts the whole module.
pub fn compile_module(toks: &Vec<Tok>, dynamic_enabled: bool) -> (r: Result<Emission, BuildError>)
    ensures
        (match sp_module(tokens_view(toks@)) {
            Option::Some(m) => if spec_symbols_ok(m) {
                r matches Result::Ok(e) && e@ == spec_emission(m, dynamic_enabled)
            } else {
                r matches Result::Err(BuildError::Duplicate(d)) && (repeats_in(
                    spec_type_names(m),
                    d.symbol@,
                ) || repeats_in(spec_c_symbols(m.functions), d.symbol@) || repeats_in(
                    spec_py_symbols(m.functions),
                    d.symbol@,
                ))
            },
            Option::None => r matches Result::Err(BuildError::Syntax(e)) && e.at as int
                == sp_module_err(tokens_view(toks@)),
        }),
{
    match parse_module(toks) {
        Result::Ok(m) => match validate_symbols(&m) {
            Result::Ok(()) => Result::Ok(emit_module(&m, dynamic_enabled)),
            Result::Err(d) => Result::Err(BuildError::Duplicate(d)),
        },
        Result::Err(e) => Result::Err(BuildError::Syntax(e)),
    }
}

/// Law: a C-only build's foreign surface exposes exactly the functions
/// whose variant is active there — the `Shared` and `COnly`
/// declarations — and the symbol list keeps declaration order.
pub proof fn lemma_c_exposure(m: ModuleSpecV)
    ensures
        spec_emission(m, false).functions.len() == m.functions.len(),
        forall|j: int|
            0 <= j < m.functions.len() ==> ((#[trigger] spec_emission(
                m,
                false,
            ).functions[j]).c_entry is Some <==> spec_c_active(m.functions[j])),
        forall|j: int|
            0 <= j < m.functions.len() ==> !((#[trigger] spec_emission(
                m,
                false,
            ).functions[j]).py_entry is Some),
        forall|j: int|
            0 <= j < m.functions.len() ==> (#[trigger] spec_emission(m, false).functions[j]).symbol
                == spec_exported_symbol(m.functions[j].variant, m.functions[j].name),
        spec_c_symbols(m.functions).len() == m.functions.filter(
            |f: FunctionDeclV| spec_c_active(f),
        ).len(),
{
    lemma_c_symbols_count(m.functions);
}

/// Helper: the C surface's symbol list is as long as the C-active
/// subset of the declarations.
proof fn lemma_c_symbols_count(fns: Seq<FunctionDeclV>)
    ensures
        spec_c_symbols(fns).len() == fns.filter(|f: FunctionDeclV| spec_c_active(f)).len(),
    decreases fns.len(),
{
    reveal(Seq::filter);
    if fns.len() > 0 {
        lemma_c_symbols_count(fns.drop_last());
    }
}

/// Law: a dynamic-enabled build's callable surface exposes exactly the
/// dynamic-active functions — the `Shared` and `PyOnly` declarations —
/// and its symbol list is as long as that subset.
pub proof fn lemma_dynamic_exposure(m: ModuleSpecV)
    ensures
        spec_emission(m, true).functions.len() == m.functions.len(),
        forall|j: int|
            0 <= j < m.functions.len() ==> ((#[trigger] spec_emission(
                m,
                true,
            ).functions[j]).py_entry is Some <==> spec_dynamic_active(m.functions[j])),
        forall|j: int|
            0 <= j < m.functions.len() ==> (#[trigger] spec_emission(m, true).functions[j]).symbol
                == spec_exported_symbol(m.functions[j].variant, m.functions[j].name),
        spec_py_symbols(m.functions).len() == m.functions.filter(
            |f: FunctionDeclV| spec_dynamic_active(f),
        ).len(),
{
    lemma_py_symbols_count(m.functions);
}

/// Helper: the dynamic surface's symbol list is as long as the
/// dynamic-active subset of the declarations.
proof fn lemma_py_symbols_count(fns: Seq<FunctionDeclV>)
    ensures
        spec_py_symbols(fns).len() == fns.filter(|f: FunctionDeclV| spec_dynamic_active(f)).len(),
    decreases fns.len(),
{
    reveal(Seq::filter);
    if fns.len() > 0 {
        lemma_py_symbols_count(fns.drop_last());
    }
}

} // verus!
