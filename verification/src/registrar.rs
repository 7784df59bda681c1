//! The module registrar.
//!
//! Active only when the dynamic configuration is enabled: it walks the
//! module's type declarations, then its function declarations, in
//! declaration order, and produces the one registration table the
//! dynamic-language host runs — every type becomes a class registration,
//! and every function whose variant is active on the dynamic surface
//! becomes a bound-callable registration under its exported symbol.
//! When the dynamic configuration is disabled it emits nothing.

use vstd::prelude::*;
use crate::model::{FunctionDeclV, ModuleRefs, ModuleRefsV, ModuleSpec, ModuleSpecV, TypeDecl,
    TypeDeclV, Variant};
use crate::model::type_decl_name;
use crate::naming::{active_targets, exported_symbol, spec_active_targets, spec_exported_symbol};
use crate::parser::{parse_flat, sp_flat, sp_flat_err, SchemaSyntaxError};
use crate::token::{tokens_view, Tok};

verus! {

/// One entry of the registration table: a class for a declared type, or
/// a bound callable for an exported function symbol.
#[derive(Clone, Debug)]
pub enum RegEntry {
    Class(String),
    Callable(String),
}

/// Mathematical view of a [`RegEntry`].
pub enum RegEntryV {
    Class(Seq<char>),
    Callable(Seq<char>),
}

impl View for RegEntry {
    type V = RegEntryV;

    open spec fn view(&self) -> RegEntryV {
        match self {
            RegEntry::Class(n) => RegEntryV::Class(n@),
            RegEntry::Callable(n) => RegEntryV::Callable(n@),
        }
    }
}

/// View of a whole registration table.
pub open spec fn table_view(table: Seq<RegEntry>) -> Seq<RegEntryV> {
    table.map_values(|e: RegEntry| e@)
}

/// Whether a declaration is active on the dynamic surface of a
/// dynamic-enabled build: `Shared` and `PyOnly` are, `COnly` is not.
pub open spec fn spec_dynamic_active(f: FunctionDeclV) -> bool {
    spec_active_targets(f.variant, true).dynamic
}

/// The callable registrations of a function list: one entry per
/// dynamic-active declaration, under its exported symbol, in
/// declaration order.
pub open spec fn spec_callables(fns: Seq<FunctionDeclV>) -> Seq<RegEntryV>
    decreases fns.len(),
{
    if fns.len() == 0 {
        Seq::empty()
    } else {
        spec_callables(fns.drop_last()) + (if spec_dynamic_active(fns.last()) {
            seq![RegEntryV::Callable(spec_exported_symbol(fns.last().variant, fns.last().name))]
        } else {
            Seq::empty()
        })
    }
}

/// The registration table of a module: its types as classes, in
/// declaration order, then its dynamic-active functions as callables,
/// in declaration order.
pub open spec fn spec_registration(m: ModuleSpecV) -> Seq<RegEntryV> {
    m.types.map_values(|t: TypeDeclV| RegEntryV::Class(type_decl_name(t))) + spec_callables(
        m.functions,
    )
}

/// The declared name of a type declaration.
fn type_decl_name_of(d: &TypeDecl) -> (r: String)
    ensures
        r@ == type_decl_name(d@),
{
    match d {
        TypeDecl::Enum(e) => e.name.clone(),
        TypeDecl::Struct(s) => s.name.clone(),
    }
}

/// Produces the registration table of a module specification, in
/// declaration order: all types as classes, then every dynamic-active
/// function as a callable under its exported symbol.  When the dynamic
/// configuration is disabled, nothing is emitted.
pub fn register_module(m: &ModuleSpec, dynamic_enabled: bool) -> (r: Option<Vec<RegEntry>>)
    ensures
        dynamic_enabled ==> (r matches Option::Some(table) && table_view(table@)
            == spec_registration(m@)),
        !dynamic_enabled ==> r is None,
{
    if !dynamic_enabled {
        return Option::None;
    }
    let ghost classes = m@.types.map_values(|t: TypeDeclV| RegEntryV::Class(type_decl_name(t)));
    let mut table: Vec<RegEntry> = Vec::new();
    let mut i: usize = 0;
    proof {
        assert(table_view(table@) =~= classes.take(0));
    }
    while i < m.types.len()
        invariant
            i <= m.types.len(),
            classes == m@.types.map_values(|t: TypeDeclV| RegEntryV::Class(type_decl_name(t))),
            classes.len() == m@.types.len(),
            table_view(table@) == classes.take(i as int),
        decreases m.types.len() - i,
    {
        let name = type_decl_name_of(&m.types[i]);
        let ghost prev = table_view(table@);
        table.push(RegEntry::Class(name));
        proof {
            assert(m@.types[i as int] == m.types@[i as int]@);
            assert(table_view(table@) =~= prev.push(RegEntryV::Class(type_decl_name(
                m@.types[i as int],
            ))));
            assert(prev.push(RegEntryV::Class(type_decl_name(m@.types[i as int])))
                =~= classes.take(i + 1));
        }
        i = i + 1;
    }
    proof {
        assert(classes.take(m@.types.len() as int) =~= classes);
    }
    let mut j: usize = 0;
    proof {
        assert(m@.functions.take(0) =~= Seq::<FunctionDeclV>::empty());
        assert(table_view(table@) =~= classes + spec_callables(m@.functions.take(0)));
    }
    while j < m.functions.len()
        invariant
            j <= m.functions.len(),
            classes == m@.types.map_values(|t: TypeDeclV| RegEntryV::Class(type_decl_name(t))),
            m@.functions.len() == m.functions.len(),
            table_view(table@) == classes + spec_callables(m@.functions.take(j as int)),
        decreases m.functions.len() - j,
    {
        let f = &m.functions[j];
        proof {
            assert(m@.functions.take(j + 1).drop_last() =~= m@.functions.take(j as int));
            assert(m@.functions.take(j + 1).last() == m@.functions[j as int]);
            assert(m@.functions[j as int] == m.functions@[j as int]@);
        }
        if active_targets(f.variant, true).dynamic {
            let ghost prev = table_view(table@);
            table.push(RegEntry::Callable(exported_symbol(f.variant, &f.name)));
            proof {
                assert(table_view(table@) =~= prev.push(RegEntryV::Callable(spec_exported_symbol(
                    m@.functions[j as int].variant,
                    m@.functions[j as int].name,
                ))));
                assert(spec_callables(m@.functions.take(j + 1)) =~= spec_callables(
                    m@.functions.take(j as int),
                ).push(RegEntryV::Callable(spec_exported_symbol(
                    m@.functions[j as int].variant,
                    m@.functions[j as int].name,
                ))));
                assert(table_view(table@) =~= classes + spec_callables(m@.functions.take(j + 1)));
            }
        } else {
            proof {
                assert(spec_callables(m@.functions.take(j + 1)) =~= spec_callables(
                    m@.functions.take(j as int),
                ));
            }
        }
        j = j + 1;
    }
    proof {
        assert(m@.functions.take(m@.functions.len() as int) =~= m@.functions);
    }
    Option::Some(table)
}

/// The registration table of a by-name module description: every listed
/// type as a class, then every listed function as a callable, verbatim
/// and in listed order.
pub open spec fn spec_refs_registration(m: ModuleRefsV) -> Seq<RegEntryV> {
    m.types.map_values(|n: Seq<char>| RegEntryV::Class(n)) + m.functions.map_values(
        |n: Seq<char>| RegEntryV::Callable(n),
    )
}

/// Exports the module registration: parses a flat-form module
/// description and, when the dynamic configuration is enabled, produces
/// the registration procedure's table — every listed type as a class,
/// then every listed function as a callable, in listed order.  When the
/// dynamic configuration is disabled nothing is emitted; a malformed
/// description is a syntax error either way.
pub fn cpy_module(toks: &Vec<Tok>, dynamic_enabled: bool) -> (r: Result<
    Option<Vec<RegEntry>>,
    SchemaSyntaxError,
>)
    ensures
        (match r {
            Result::Ok(opt) => sp_flat(tokens_view(toks@)) matches Option::Some(m) && (
            if dynamic_enabled {
                opt matches Option::Some(table) && table_view(table@) == spec_refs_registration(m)
            } else {
                opt is None
            }),
            Result::Err(e) => sp_flat(tokens_view(toks@)) is None && e.at as int == sp_flat_err(
                tokens_view(toks@),
            ),
        }),
{
    match parse_flat(toks) {
        Result::Ok(refs) => {
            if !dynamic_enabled {
                return Result::Ok(Option::None);
            }
            let ghost classes = refs@.types.map_values(|n: Seq<char>| RegEntryV::Class(n));
            let ghost callables = refs@.functions.map_values(
                |n: Seq<char>| RegEntryV::Callable(n),
            );
            let mut table: Vec<RegEntry> = Vec::new();
            let mut i: usize = 0;
            proof {
                assert(table_view(table@) =~= classes.take(0));
            }
            while i < refs.types.len()
                invariant
                    i <= refs.types.len(),
                    classes == refs@.types.map_values(|n: Seq<char>| RegEntryV::Class(n)),
                    classes.len() == refs.types@.len(),
                    table_view(table@) == classes.take(i as int),
                decreases refs.types.len() - i,
            {
                let ghost prev = table_view(table@);
                table.push(RegEntry::Class(refs.types[i].clone()));
                proof {
                    assert(table_view(table@) =~= prev.push(RegEntryV::Class(
                        refs.types@[i as int]@,
                    )));
                    assert(refs@.types[i as int] == refs.types@[i as int]@);
                    assert(prev.push(RegEntryV::Class(refs@.types[i as int])) =~= classes.take(
                        i + 1,
                    ));
                }
                i = i + 1;
            }
            proof {
                assert(classes.take(refs.types@.len() as int) =~= classes);
            }
            let mut j: usize = 0;
            proof {
                assert(table_view(table@) + callables.take(0) =~= table_view(table@));
            }
            while j < refs.functions.len()
                invariant
                    j <= refs.functions.len(),
                    classes == refs@.types.map_values(|n: Seq<char>| RegEntryV::Class(n)),
                    callables == refs@.functions.map_values(
                        |n: Seq<char>| RegEntryV::Callable(n),
                    ),
                    callables.len() == refs.functions@.len(),
                    table_view(table@) == classes + callables.take(j as int),
                decreases refs.functions.len() - j,
            {
                let ghost prev = table_view(table@);
                table.push(RegEntry::Callable(refs.functions[j].clone()));
                proof {
                    assert(table_view(table@) =~= prev.push(RegEntryV::Callable(
                        refs.functions@[j as int]@,
                    )));
                    assert(refs@.functions[j as int] == refs.functions@[j as int]@);
                    assert((classes + callables.take(j as int)).push(RegEntryV::Callable(
                        refs@.functions[j as int],
                    )) =~= classes + callables.take(j + 1));
                }
                j = j + 1;
            }
            proof {
                assert(callables.take(refs.functions@.len() as int) =~= callables);
            }
            Result::Ok(Option::Some(table))
        },
        Result::Err(e) => Result::Err(e),
    }
}

/// Law: the registration table holds exactly one class per type
/// declaration and exactly one callable per dynamic-active function
/// declaration (`Shared` or `PyOnly`), nothing else.
pub proof fn lemma_registration_count(m: ModuleSpecV)
    ensures
        spec_registration(m).len() == m.types.len() + m.functions.filter(
            |f: FunctionDeclV| spec_dynamic_active(f),
        ).len(),
{
    lemma_callables_count(m.functions);
}

/// Helper: the callable list is as long as the dynamic-active subset.
proof fn lemma_callables_count(fns: Seq<FunctionDeclV>)
    ensures
        spec_callables(fns).len() == fns.filter(|f: FunctionDeclV| spec_dynamic_active(f)).len(),
    decreases fns.len(),
{
    reveal(Seq::filter);
    if fns.len() > 0 {
        lemma_callables_count(fns.drop_last());
    }
}

/// Law: the registration table holds exactly the type declarations as
/// class entries and exactly the dynamic-active functions as callable
/// entries — counted by kind.
pub proof fn lemma_registration_kind_counts(m: ModuleSpecV)
    ensures
        spec_registration(m).filter(|e: RegEntryV| e is Class).len() == m.types.len(),
        spec_registration(m).filter(|e: RegEntryV| e is Callable).len() == m.functions.filter(
            |f: FunctionDeclV| spec_dynamic_active(f),
        ).len(),
{
    let classes = m.types.map_values(|t: TypeDeclV| RegEntryV::Class(type_decl_name(t)));
    let callables = spec_callables(m.functions);
    Seq::filter_distributes_over_add(classes, callables, |e: RegEntryV| e is Class);
    Seq::filter_distributes_over_add(classes, callables, |e: RegEntryV| e is Callable);
    assert(forall|k: int| 0 <= k < classes.len() ==> (#[trigger] classes[k]) is Class);
    lemma_callables_all_callable(m.functions);
    lemma_filter_all(classes, |e: RegEntryV| e is Class);
    lemma_filter_none(classes, |e: RegEntryV| e is Callable);
    lemma_filter_all(callables, |e: RegEntryV| e is Callable);
    lemma_filter_none(callables, |e: RegEntryV| e is Class);
    lemma_callables_count(m.functions);
    assert(spec_registration(m).filter(|e: RegEntryV| e is Class) =~= classes);
    assert(spec_registration(m).filter(|e: RegEntryV| e is Callable) =~= callables);
}

/// Helper: every callable-list entry is a callable.
proof fn lemma_callables_all_callable(fns: Seq<FunctionDeclV>)
    ensures
        forall|k: int| 0 <= k < spec_callables(fns).len() ==> (#[trigger] spec_callables(
            fns,
        )[k]) is Callable,
    decreases fns.len(),
{
    if fns.len() > 0 {
        lemma_callables_all_callable(fns.drop_last());
    }
}

/// Helper: a filter whose predicate holds everywhere keeps everything.
proof fn lemma_filter_all(s: Seq<RegEntryV>, pred: spec_fn(RegEntryV) -> bool)
    requires
        forall|k: int| 0 <= k < s.len() ==> pred(#[trigger] s[k]),
    ensures
        s.filter(pred) =~= s,
    decreases s.len(),
{
    reveal(Seq::filter);
    if s.len() > 0 {
        assert(forall|k: int| 0 <= k < s.drop_last().len() ==> #[trigger] s.drop_last()[k] == s[k]);
        lemma_filter_all(s.drop_last(), pred);
        assert(s.last() == s[s.len() - 1]);
        assert(s.drop_last().push(s.last()) =~= s);
    }
}

/// Helper: a filter whose predicate holds nowhere keeps nothing.
proof fn lemma_filter_none(s: Seq<RegEntryV>, pred: spec_fn(RegEntryV) -> bool)
    requires
        forall|k: int| 0 <= k < s.len() ==> !pred(#[trigger] s[k]),
    ensures
        s.filter(pred) =~= Seq::<RegEntryV>::empty(),
    decreases s.len(),
{
    reveal(Seq::filter);
    if s.len() > 0 {
        assert(forall|k: int| 0 <= k < s.drop_last().len() ==> #[trigger] s.drop_last()[k] == s[k]);
        lemma_filter_none(s.drop_last(), pred);
        assert(s.last() == s[s.len() - 1]);
    }
}

/// Law: registration preserves declaration order — the table opens with
/// the types, as classes, at their declaration positions.
pub proof fn lemma_registration_class_order(m: ModuleSpecV, k: int)
    requires
        0 <= k < m.types.len(),
    ensures
        spec_registration(m)[k] == RegEntryV::Class(type_decl_name(m.types[k])),
{
}

/// Law: registration preserves declaration order — when every function
/// is dynamic-active, the table is exactly the classes in declaration
/// order followed by the callables in declaration order.
pub proof fn lemma_registration_full_order(m: ModuleSpecV)
    requires
        forall|j: int|
            0 <= j < m.functions.len() ==> spec_dynamic_active(#[trigger] m.functions[j]),
    ensures
        spec_registration(m).len() == m.types.len() + m.functions.len(),
        forall|j: int|
            0 <= j < m.functions.len() ==> spec_registration(m)[m.types.len() + j]
                == RegEntryV::Callable(
                spec_exported_symbol(#[trigger] m.functions[j].variant, m.functions[j].name),
            ),
{
    lemma_callables_all_active(m.functions);
}

/// Helper: with every declaration dynamic-active, the callable list is
/// the function list mapped to its exported symbols.
proof fn lemma_callables_all_active(fns: Seq<FunctionDeclV>)
    requires
        forall|j: int| 0 <= j < fns.len() ==> spec_dynamic_active(#[trigger] fns[j]),
    ensures
        spec_callables(fns) == fns.map_values(
            |f: FunctionDeclV| RegEntryV::Callable(spec_exported_symbol(f.variant, f.name)),
        ),
    decreases fns.len(),
{
    let target = fns.map_values(
        |f: FunctionDeclV| RegEntryV::Callable(spec_exported_symbol(f.variant, f.name)),
    );
    if fns.len() == 0 {
        assert(spec_callables(fns) =~= target);
    } else {
        assert(forall|j: int|
            0 <= j < fns.drop_last().len() ==> #[trigger] fns.drop_last()[j] == fns[j]);
        lemma_callables_all_active(fns.drop_last());
        assert(fns.last() == fns[fns.len() - 1]);
        assert(spec_callables(fns) =~= target);
    }
}

} // verus!
