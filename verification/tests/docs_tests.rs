use cpy_binder::docs::{get_comment, get_comments, Attr, AttrKey};

fn attr(key: AttrKey, value: &str) -> Attr {
    Attr { key, value: value.to_string() }
}

#[test]
fn no_attributes_defaults_both() {
    let attrs: Vec<Attr> = Vec::new();
    let (doc_c, doc_py) = get_comments(&attrs);
    assert_eq!(doc_c, "No documentation");
    assert_eq!(doc_py, "No documentation");
    assert_eq!(get_comment(&attrs), "No documentation");
}

#[test]
fn generic_comment_fills_both() {
    let attrs = vec![attr(AttrKey::Comment, "X")];
    let (doc_c, doc_py) = get_comments(&attrs);
    assert_eq!(doc_c, "X");
    assert_eq!(doc_py, "X");
    assert_eq!(get_comment(&attrs), "X");
}

#[test]
fn target_specific_overrides_generic() {
    let attrs = vec![attr(AttrKey::Comment, "X"), attr(AttrKey::CommentC, "Y")];
    let (doc_c, doc_py) = get_comments(&attrs);
    assert_eq!(doc_c, "Y");
    assert_eq!(doc_py, "X");
}

#[test]
fn py_specific_overrides_generic() {
    let attrs = vec![attr(AttrKey::CommentPy, "P"), attr(AttrKey::Comment, "X")];
    let (doc_c, doc_py) = get_comments(&attrs);
    assert_eq!(doc_c, "X");
    assert_eq!(doc_py, "P");
}

#[test]
fn both_targets_specific() {
    let attrs = vec![
        attr(AttrKey::CommentC, "for c"),
        attr(AttrKey::CommentPy, "for py"),
    ];
    let (doc_c, doc_py) = get_comments(&attrs);
    assert_eq!(doc_c, "for c");
    assert_eq!(doc_py, "for py");
}

#[test]
fn repeated_key_later_wins_in_pair_resolution() {
    let attrs = vec![attr(AttrKey::CommentC, "first"), attr(AttrKey::CommentC, "second")];
    let (doc_c, _) = get_comments(&attrs);
    assert_eq!(doc_c, "second");
}

#[test]
fn repeated_comment_first_wins_for_single_doc() {
    let attrs = vec![attr(AttrKey::Comment, "first"), attr(AttrKey::Comment, "second")];
    assert_eq!(get_comment(&attrs), "first");
}

#[test]
fn single_doc_ignores_target_specific_keys() {
    let attrs = vec![attr(AttrKey::CommentC, "only c")];
    assert_eq!(get_comment(&attrs), "No documentation");
}
