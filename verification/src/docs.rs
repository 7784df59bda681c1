//! Documentation resolution.
//!
//! Each schema item carries an ordered list of documentation attributes
//! (`comment`, `comment_c`, `comment_py`).  The resolver turns that list
//! into effective per-target documentation strings with layered fallback:
//! a target-specific attribute wins, otherwise the generic `comment` is
//! used, otherwise the default string `"No documentation"`.  Resolution is
//! pure and has no failure mode: an empty attribute list is a valid input.

use vstd::prelude::*;

verus! {

/// The key of a documentation attribute.
#[derive(Clone, Copy, Debug, PartialEq, Eq, Structural)]
pub enum AttrKey {
    Comment,
    CommentC,
    CommentPy,
}

/// A documentation attribute: a key and its string value.
#[derive(Clone, Debug)]
pub struct Attr {
    pub key: AttrKey,
    pub value: String,
}

/// Mathematical view of an [`Attr`].
pub struct AttrV {
    pub key: AttrKey,
    pub value: Seq<char>,
}

impl View for Attr {
    type V = AttrV;

    open spec fn view(&self) -> AttrV {
        AttrV { key: self.key, value: self.value@ }
    }
}

/// View of a whole attribute list.
pub open spec fn attrs_view(attrs: Seq<Attr>) -> Seq<AttrV> {
    attrs.map_values(|a: Attr| a@)
}

/// The default documentation string, used when no attribute applies.
pub open spec fn spec_default_doc() -> Seq<char> {
    "No documentation"@
}

/// The value of the first `comment` attribute, if any.
pub open spec fn spec_first_comment(attrs: Seq<AttrV>) -> Option<Seq<char>>
    decreases attrs.len(),
{
    if attrs.len() == 0 {
        Option::None
    } else if attrs[0].key is Comment {
        Option::Some(attrs[0].value)
    } else {
        spec_first_comment(attrs.skip(1))
    }
}

/// The single-string documentation of an item: the first `comment`
/// attribute's value, or the default.  Target-specific attributes do not
/// take part; they are meaningless on a single-doc item.
pub open spec fn spec_resolve_doc(attrs: Seq<AttrV>) -> Seq<char> {
    match spec_first_comment(attrs) {
        Option::Some(v) => v,
        Option::None => spec_default_doc(),
    }
}

/// The value of the last attribute with the given key, if any.  When a
/// key is repeated, the later occurrence wins.
pub open spec fn spec_last_value(attrs: Seq<AttrV>, key: AttrKey) -> Option<Seq<char>>
    decreases attrs.len(),
{
    if attrs.len() == 0 {
        Option::None
    } else if attrs.last().key == key {
        Option::Some(attrs.last().value)
    } else {
        spec_last_value(attrs.drop_last(), key)
    }
}

/// The effective documentation for one target: the target-specific
/// attribute if present, else the generic `comment`, else the default.
pub open spec fn spec_resolve_target_doc(attrs: Seq<AttrV>, key: AttrKey) -> Seq<char> {
    match spec_last_value(attrs, key) {
        Option::Some(v) => v,
        Option::None => match spec_last_value(attrs, AttrKey::Comment) {
            Option::Some(v) => v,
            Option::None => spec_default_doc(),
        },
    }
}

/// The resolved `(doc_c, doc_py)` pair of an attribute list.
pub open spec fn spec_resolve_docs(attrs: Seq<AttrV>) -> (Seq<char>, Seq<char>) {
    (
        spec_resolve_target_doc(attrs, AttrKey::CommentC),
        spec_resolve_target_doc(attrs, AttrKey::CommentPy),
    )
}

/// Resolves the single documentation string of an item: the first
/// `comment` attribute's value, or `"No documentation"`.
pub fn get_comment(attrs: &Vec<Attr>) -> (doc: String)
    ensures
        doc@ == spec_resolve_doc(attrs_view(attrs@)),
{
    let ghost all: Seq<AttrV> = attrs_view(attrs@);
    proof {
        assert(all.skip(0) =~= all);
    }
    let mut i: usize = 0;
    while i < attrs.len()
        invariant
            i <= attrs.len(),
            all == attrs_view(attrs@),
            all.len() == attrs.len(),
            spec_first_comment(all) == spec_first_comment(all.skip(i as int)),
        decreases attrs.len() - i,
    {
        let a = &attrs[i];
        proof {
            assert(all.skip(i as int)[0] == all[i as int]);
            assert(all.skip(i as int).skip(1) =~= all.skip(i as int + 1));
        }
        if matches!(a.key, AttrKey::Comment) {
            assert(spec_first_comment(all) == Option::Some(a.value@));
            return a.value.clone();
        }
        i = i + 1;
    }
    proof {
        assert(all.skip(attrs.len() as int) =~= Seq::<AttrV>::empty());
    }
    String::from_str("No documentation")
}

/// One step of the last-wins scan: extending the list by one attribute.
proof fn lemma_last_value_push(attrs: Seq<AttrV>, a: AttrV, key: AttrKey)
    ensures
        spec_last_value(attrs.push(a), key) == (if a.key == key {
            Option::Some(a.value)
        } else {
            spec_last_value(attrs, key)
        }),
{
    assert(attrs.push(a).last() == a);
    assert(attrs.push(a).drop_last() =~= attrs);
}

/// Resolves the per-target documentation pair of a function declaration.
///
/// `comment_c`/`comment_py` win for their target; a generic `comment`
/// fills whichever side has no target-specific attribute; absent both,
/// the side defaults to `"No documentation"`.  A repeated key's later
/// occurrence wins.
pub fn get_comments(attrs: &Vec<Attr>) -> (docs: (String, String))
    ensures
        docs.0@ == spec_resolve_docs(attrs_view(attrs@)).0,
        docs.1@ == spec_resolve_docs(attrs_view(attrs@)).1,
{
    let ghost all: Seq<AttrV> = attrs_view(attrs@);
    let mut comment_c: Option<String> = Option::None;
    let mut comment_py: Option<String> = Option::None;
    let mut comment: Option<String> = Option::None;
    let mut i: usize = 0;
    while i < attrs.len()
        invariant
            i <= attrs.len(),
            all == attrs_view(attrs@),
            all.len() == attrs.len(),
            match comment_c {
                Option::Some(s) => spec_last_value(all.take(i as int), AttrKey::CommentC)
                    == Option::Some(s@),
                Option::None => spec_last_value(all.take(i as int), AttrKey::CommentC)
                    is None,
            },
            match comment_py {
                Option::Some(s) => spec_last_value(all.take(i as int), AttrKey::CommentPy)
                    == Option::Some(s@),
                Option::None => spec_last_value(all.take(i as int), AttrKey::CommentPy)
                    is None,
            },
            match comment {
                Option::Some(s) => spec_last_value(all.take(i as int), AttrKey::Comment)
                    == Option::Some(s@),
                Option::None => spec_last_value(all.take(i as int), AttrKey::Comment)
                    is None,
            },
        decreases attrs.len() - i,
    {
        let a = &attrs[i];
        proof {
            assert(all.take(i as int).push(all[i as int]) =~= all.take(i as int + 1));
            lemma_last_value_push(all.take(i as int), all[i as int], AttrKey::CommentC);
            lemma_last_value_push(all.take(i as int), all[i as int], AttrKey::CommentPy);
            lemma_last_value_push(all.take(i as int), all[i as int], AttrKey::Comment);
        }
        match a.key {
            AttrKey::CommentC => { comment_c = Option::Some(a.value.clone()); },
            AttrKey::CommentPy => { comment_py = Option::Some(a.value.clone()); },
            AttrKey::Comment => { comment = Option::Some(a.value.clone()); },
        }
        i = i + 1;
    }
    proof {
        assert(all.take(attrs.len() as int) =~= all);
    }
    let doc_c: String = match comment_c {
        Option::Some(s) => s,
        Option::None => match &comment {
            Option::Some(s) => s.clone(),
            Option::None => String::from_str("No documentation"),
        },
    };
    let doc_py: String = match comment_py {
        Option::Some(s) => s,
        Option::None => match comment {
            Option::Some(s) => s,
            Option::None => String::from_str("No documentation"),
        },
    };
    (doc_c, doc_py)
}

/// Law: a target-specific attribute is used as-is for its target.
pub proof fn lemma_doc_specific_wins(attrs: Seq<AttrV>, key: AttrKey, v: Seq<char>)
    requires
        key != AttrKey::Comment,
        spec_last_value(attrs, key) == Option::Some(v),
    ensures
        spec_resolve_target_doc(attrs, key) == v,
{
}

/// Law: absent a target-specific attribute, the generic `comment` fills
/// that target's documentation.
pub proof fn lemma_doc_generic_fallback(attrs: Seq<AttrV>, key: AttrKey, v: Seq<char>)
    requires
        spec_last_value(attrs, key) is None,
        spec_last_value(attrs, AttrKey::Comment) == Option::Some(v),
    ensures
        spec_resolve_target_doc(attrs, key) == v,
{
}

/// Law: an item with no documentation attributes resolves to the default
/// string on both targets, and to the default single-item documentation.
pub proof fn lemma_doc_default(attrs: Seq<AttrV>)
    requires
        attrs.len() == 0,
    ensures
        spec_resolve_docs(attrs).0 == spec_default_doc(),
        spec_resolve_docs(attrs).1 == spec_default_doc(),
        spec_resolve_doc(attrs) == spec_default_doc(),
{
}

/// Helper: a key that occurs nowhere in the list is never found by the
/// last-wins scan.
proof fn lemma_last_value_none(attrs: Seq<AttrV>, key: AttrKey)
    requires
        forall|i: int| 0 <= i < attrs.len() ==> (#[trigger] attrs[i].key) != key,
    ensures
        spec_last_value(attrs, key) is None,
    decreases attrs.len(),
{
    if attrs.len() > 0 {
        assert(attrs.last() == attrs[attrs.len() - 1]);
        assert(forall|i: int|
            0 <= i < attrs.drop_last().len() ==> #[trigger] attrs.drop_last()[i] == attrs[i]);
        lemma_last_value_none(attrs.drop_last(), key);
    }
}

/// Law: an item whose attributes carry only the generic `comment` key
/// resolves to that comment's value on both targets.
pub proof fn lemma_doc_generic_only(attrs: Seq<AttrV>, v: Seq<char>)
    requires
        forall|i: int| 0 <= i < attrs.len() ==> (#[trigger] attrs[i].key) is Comment,
        spec_last_value(attrs, AttrKey::Comment) == Option::Some(v),
    ensures
        spec_resolve_docs(attrs).0 == v,
        spec_resolve_docs(attrs).1 == v,
{
    lemma_last_value_none(attrs, AttrKey::CommentC);
    lemma_last_value_none(attrs, AttrKey::CommentPy);
}

} // verus!
