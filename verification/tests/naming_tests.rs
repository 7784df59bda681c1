use cpy_binder::model::Variant;
use cpy_binder::naming::{active_targets, exported_symbol, strip_suffix_once};

#[test]
fn pair_yields_same_symbol() {
    let c_name = "foo_c".to_string();
    let py_name = "foo_py".to_string();
    assert_eq!(exported_symbol(Variant::COnly, &c_name), "foo");
    assert_eq!(exported_symbol(Variant::PyOnly, &py_name), "foo");
}

#[test]
fn shared_name_unchanged() {
    let name = "wheel_size_aspect".to_string();
    assert_eq!(exported_symbol(Variant::Shared, &name), "wheel_size_aspect");
}

#[test]
fn stripping_is_noop_without_marker() {
    let name = "format".to_string();
    assert_eq!(exported_symbol(Variant::COnly, &name), "format");
    assert_eq!(exported_symbol(Variant::PyOnly, &name), "format");
}

#[test]
fn stripping_removes_one_trailing_marker_only() {
    let name = "foo_c_c".to_string();
    assert_eq!(exported_symbol(Variant::COnly, &name), "foo_c");
    let name2 = "bar_py_py".to_string();
    assert_eq!(exported_symbol(Variant::PyOnly, &name2), "bar_py");
}

#[test]
fn stripping_is_stable_when_reapplied() {
    let name = "foo_c".to_string();
    let once = strip_suffix_once(&name, "_c");
    let twice = strip_suffix_once(&once, "_c");
    assert_eq!(once, "foo");
    assert_eq!(twice, "foo");
}

#[test]
fn marker_of_other_target_is_kept() {
    let name = "foo_py".to_string();
    assert_eq!(exported_symbol(Variant::COnly, &name), "foo_py");
}

#[test]
fn shared_targets_per_build() {
    let c_only_build = active_targets(Variant::Shared, false);
    assert!(c_only_build.c && !c_only_build.dynamic);
    let dynamic_build = active_targets(Variant::Shared, true);
    assert!(dynamic_build.c && dynamic_build.dynamic);
}

#[test]
fn c_only_declaration_absent_from_dynamic_build() {
    let targets = active_targets(Variant::COnly, true);
    assert!(!targets.c && !targets.dynamic);
    let c_build = active_targets(Variant::COnly, false);
    assert!(c_build.c && !c_build.dynamic);
}

#[test]
fn py_only_declaration_absent_from_c_build() {
    let targets = active_targets(Variant::PyOnly, false);
    assert!(!targets.c && !targets.dynamic);
    let dyn_build = active_targets(Variant::PyOnly, true);
    assert!(!dyn_build.c && dyn_build.dynamic);
}

#[test]
fn pair_never_coexists_in_any_build() {
    for dynamic_enabled in [false, true] {
        let c_half = active_targets(Variant::COnly, dynamic_enabled);
        let py_half = active_targets(Variant::PyOnly, dynamic_enabled);
        assert!(!(c_half.c && py_half.c));
        assert!(!(c_half.dynamic && py_half.dynamic));
    }
}
