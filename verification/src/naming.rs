//! Variant classification and exported symbol naming.
//!
//! A function declaration's variant determines which build configurations
//! it is compiled into and how its exported symbol name is derived from
//! the raw declared name: `COnly` declarations drop one trailing `_c`
//! marker, `PyOnly` declarations one trailing `_py` marker, and `Shared`
//! declarations keep their name unchanged.  Stripping is applied at most
//! once and is a no-op when the marker is absent.

use vstd::prelude::*;
use crate::model::{Targets, Variant};

verus! {

/// The marker suffix of a C-exclusive declaration.
pub open spec fn c_suffix() -> Seq<char> {
    "_c"@
}

/// The marker suffix of a dynamic-exclusive declaration.
pub open spec fn py_suffix() -> Seq<char> {
    "_py"@
}

/// Whether `s` ends with `suffix`.
pub open spec fn spec_ends_with(s: Seq<char>, suffix: Seq<char>) -> bool {
    s.len() >= suffix.len() && s.subrange(s.len() - suffix.len(), s.len() as int) == suffix
}

/// `s` with a single trailing occurrence of `suffix` removed; `s` itself
/// when the suffix is absent.
pub open spec fn spec_strip_once(s: Seq<char>, suffix: Seq<char>) -> Seq<char> {
    if spec_ends_with(s, suffix) {
        s.take(s.len() - suffix.len())
    } else {
        s
    }
}

/// The canonical exported symbol of a declaration: the raw name for
/// `Shared`, the raw name less one trailing marker for `COnly`/`PyOnly`.
pub open spec fn spec_exported_symbol(variant: Variant, name: Seq<char>) -> Seq<char> {
    match variant {
        Variant::Shared => name,
        Variant::COnly => spec_strip_once(name, c_suffix()),
        Variant::PyOnly => spec_strip_once(name, py_suffix()),
    }
}

/// The build configurations a declaration's artifacts appear in, for a
/// build with the dynamic configuration enabled or not.
///
/// A `Shared` declaration always has a foreign-linked form and gains the
/// dynamic-callable form in a dynamic-enabled build.  A `COnly`
/// declaration exists only in a C-only build; a `PyOnly` declaration only
/// in a dynamic-enabled build.  A single build therefore never holds both
/// halves of a `COnly`/`PyOnly` pair.
pub open spec fn spec_active_targets(variant: Variant, dynamic_enabled: bool) -> Targets {
    match variant {
        Variant::Shared => Targets { c: true, dynamic: dynamic_enabled },
        Variant::COnly => Targets { c: !dynamic_enabled, dynamic: false },
        Variant::PyOnly => Targets { c: false, dynamic: dynamic_enabled },
    }
}

/// Whether `s` ends with the characters of `suffix`.
pub fn ends_with_suffix(s: &String, suffix: &str) -> (r: bool)
    ensures
        r == spec_ends_with(s@, suffix@),
{
    let n: usize = s.as_str().unicode_len();
    let m: usize = suffix.unicode_len();
    if n < m {
        return false;
    }
    let mut i: usize = 0;
    while i < m
        invariant
            0 <= i <= m,
            m <= n,
            n == s@.len(),
            m == suffix@.len(),
            forall|j: int| 0 <= j < i ==> s@[n - m + j] == suffix@[j],
        decreases m - i,
    {
        let cs: char = s.as_str().get_char(n - m + i);
        let cx: char = suffix.get_char(i);
        if cs != cx {
            assert(s@.subrange(n - m, n as int)[i as int] != suffix@[i as int]);
            return false;
        }
        i = i + 1;
    }
    assert(s@.subrange(n - m, n as int) =~= suffix@);
    true
}

/// The exported symbol name of `name` under `variant`, with one trailing
/// marker stripped for an exclusive variant.
pub fn exported_symbol(variant: Variant, name: &String) -> (r: String)
    ensures
        r@ == spec_exported_symbol(variant, name@),
{
    match variant {
        Variant::Shared => name.clone(),
        Variant::COnly => strip_suffix_once(name, "_c"),
        Variant::PyOnly => strip_suffix_once(name, "_py"),
    }
}

/// `s` with one trailing occurrence of `suffix` removed, or `s` itself
/// when the suffix is absent.
pub fn strip_suffix_once(s: &String, suffix: &str) -> (r: String)
    ensures
        r@ == spec_strip_once(s@, suffix@),
{
    if ends_with_suffix(s, suffix) {
        let n: usize = s.as_str().unicode_len();
        let m: usize = suffix.unicode_len();
        let prefix: &str = s.as_str().substring_char(0, n - m);
        prefix.to_owned()
    } else {
        s.clone()
    }
}

/// The configurations a declaration is active in, for this build.
pub fn active_targets(variant: Variant, dynamic_enabled: bool) -> (t: Targets)
    ensures
        t == spec_active_targets(variant, dynamic_enabled),
{
    match variant {
        Variant::Shared => Targets { c: true, dynamic: dynamic_enabled },
        Variant::COnly => Targets { c: !dynamic_enabled, dynamic: false },
        Variant::PyOnly => Targets { c: false, dynamic: dynamic_enabled },
    }
}

/// Law: stripping removes exactly an appended marker, so a `fn_c
/// base_c`/`fn_py base_py` pair both export the bare `base` symbol.
pub proof fn lemma_strip_appended(base: Seq<char>, suffix: Seq<char>)
    ensures
        spec_strip_once(base + suffix, suffix) == base,
{
    let s = base + suffix;
    assert(s.subrange(s.len() - suffix.len(), s.len() as int) =~= suffix);
    assert(spec_ends_with(s, suffix));
    assert(s.take(s.len() - suffix.len()) =~= base);
}

/// Law: a C-exclusive declaration named `base + "_c"` and a
/// dynamic-exclusive declaration named `base + "_py"` yield the same
/// exported symbol `base`.
pub proof fn lemma_pair_same_symbol(base: Seq<char>)
    ensures
        spec_exported_symbol(Variant::COnly, base + c_suffix()) == base,
        spec_exported_symbol(Variant::PyOnly, base + py_suffix()) == base,
{
    lemma_strip_appended(base, c_suffix());
    lemma_strip_appended(base, py_suffix());
}

/// Law: suffix stripping is idempotent on any name that does not end in
/// a doubled marker (for `name == base + suffix + suffix`, a second
/// strip would remove a second marker).
pub proof fn lemma_strip_idempotent(name: Seq<char>, suffix: Seq<char>)
    requires
        spec_ends_with(name, suffix) ==> !spec_ends_with(
            name.take(name.len() - suffix.len()),
            suffix,
        ),
    ensures
        spec_strip_once(spec_strip_once(name, suffix), suffix) == spec_strip_once(name, suffix),
{
}

/// Law: no single build configuration holds both halves of a
/// `COnly`/`PyOnly` pair — in every build, on each of the two export
/// surfaces, at most one of the two is active.
pub proof fn lemma_pair_never_coexists(dynamic_enabled: bool)
    ensures
        !(spec_active_targets(Variant::COnly, dynamic_enabled).c
            && spec_active_targets(Variant::PyOnly, dynamic_enabled).c),
        !(spec_active_targets(Variant::COnly, dynamic_enabled).dynamic
            && spec_active_targets(Variant::PyOnly, dynamic_enabled).dynamic),
{
}

} // verus!
