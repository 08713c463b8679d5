//! The trees that JSON and MessagePack documents stand for.
use vstd::prelude::*;
use vstd::string::*;

use crate::text;

verus! {

/// A parsed document. A number holds its value where it is an integer of 64 bits, a text holds
/// its characters where it is valid, and what the library never looks into is opaque. The
/// members of a JSON object are pairs whose keys are texts.
#[derive(Debug)]
pub enum Tree {
    Opaque,
    Number(Option<i64>),
    Text(Option<String>),
    List(Vec<Tree>),
    Pairs(Vec<(Tree, Tree)>),
}

/// The shape of a [`Tree`].
pub enum Shape {
    Opaque,
    Number(Option<i64>),
    Text(Option<Seq<char>>),
    List(Seq<Shape>),
    Pairs(Seq<(Shape, Shape)>),
}

/// The shape of `tree`.
pub open spec fn shape(tree: Tree) -> Shape
    decreases tree,
{
    match tree {
        Tree::Opaque => Shape::Opaque,
        Tree::Number(n) => Shape::Number(n),
        Tree::Text(t) => Shape::Text(text::option_view(t)),
        Tree::List(items) => Shape::List(
            Seq::new(
                items@.len(),
                |i: int|
                    if 0 <= i < items@.len() {
                        shape(items@[i])
                    } else {
                        Shape::Opaque
                    },
            ),
        ),
        Tree::Pairs(pairs) => Shape::Pairs(
            Seq::new(
                pairs@.len(),
                |i: int|
                    if 0 <= i < pairs@.len() {
                        (shape(pairs@[i].0), shape(pairs@[i].1))
                    } else {
                        (Shape::Opaque, Shape::Opaque)
                    },
            ),
        ),
    }
}

/// The shape of an optional tree.
pub open spec fn option_shape(tree: Option<&Tree>) -> Option<Shape> {
    match tree {
        Some(tree) => Some(shape(*tree)),
        None => None,
    }
}

// ---------------------------------------------------------------------------
// Looking into a tree
// ---------------------------------------------------------------------------
/// The integer that a shape is.
pub open spec fn number_of(s: Shape) -> Option<i64> {
    match s {
        Shape::Number(n) => n,
        _ => None,
    }
}

/// The text that a shape is.
pub open spec fn text_of(s: Shape) -> Option<Seq<char>> {
    match s {
        Shape::Text(t) => t,
        _ => None,
    }
}

/// The value of the first pair whose key is the text `key`.
pub open spec fn pair_value(pairs: Seq<(Shape, Shape)>, key: Seq<char>) -> Option<Shape>
    decreases pairs.len(),
{
    if pairs.len() == 0 {
        None
    } else if text_of(pairs[0].0) == Some(key) {
        Some(pairs[0].1)
    } else {
        pair_value(pairs.drop_first(), key)
    }
}

/// The member `key` of a shape.
pub open spec fn member(s: Shape, key: Seq<char>) -> Option<Shape> {
    match s {
        Shape::Pairs(pairs) => pair_value(pairs, key),
        _ => None,
    }
}

/// The member `key`, as an integer.
pub open spec fn member_number(s: Shape, key: Seq<char>) -> Option<i64> {
    match member(s, key) {
        Some(value) => number_of(value),
        None => None,
    }
}

/// The member `key`, as a text.
pub open spec fn member_text(s: Shape, key: Seq<char>) -> Option<Seq<char>> {
    match member(s, key) {
        Some(value) => text_of(value),
        None => None,
    }
}

/// The pairs of a shape.
pub open spec fn shapes_of_pairs(pairs: Seq<(Tree, Tree)>) -> Seq<(Shape, Shape)> {
    Seq::new(pairs.len(), |i: int| (shape(pairs[i].0), shape(pairs[i].1)))
}

impl Tree {
    /// The integer that this is.
    pub fn as_number(&self) -> (r: Option<i64>)
        ensures
            r == number_of(shape(*self)),
    {
        match self {
            Tree::Number(n) => *n,
            _ => None,
        }
    }

    /// The text that this is.
    pub fn as_text(&self) -> (r: Option<&String>)
        ensures
            text_of(shape(*self)) == match r {
                Some(t) => Some(t@),
                None => None,
            },
    {
        match self {
            Tree::Text(Some(t)) => Some(t),
            _ => None,
        }
    }

    /// The value of the first pair whose key is the text `key`.
    pub fn get(&self, key: &str) -> (r: Option<&Tree>)
        ensures
            option_shape(r) == member(shape(*self), key@),
    {
        match self {
            Tree::Pairs(pairs) => get_map_val(pairs, key),
            _ => None,
        }
    }

    /// The member `key`, as an integer.
    pub fn get_number(&self, key: &str) -> (r: Option<i64>)
        ensures
            r == member_number(shape(*self), key@),
    {
        match self.get(key) {
            Some(value) => value.as_number(),
            None => None,
        }
    }

    /// The member `key`, as a text.
    pub fn get_text(&self, key: &str) -> (r: Option<&String>)
        ensures
            member_text(shape(*self), key@) == match r {
                Some(t) => Some(t@),
                None => None,
            },
    {
        match self.get(key) {
            Some(value) => value.as_text(),
            None => None,
        }
    }
}

/// The value of the first pair whose key is the text `key`.
pub fn get_map_val<'a>(map: &'a Vec<(Tree, Tree)>, key: &str) -> (r: Option<&'a Tree>)
    ensures
        option_shape(r) == member(shape(Tree::Pairs(*map)), key@),
{
    let ghost all = shapes_of_pairs(map@);
    assert(shape(Tree::Pairs(*map)) == Shape::Pairs(all)) by {
        assert(shape(Tree::Pairs(*map))->Pairs_0 =~= all);
    }
    assert(all.skip(0) =~= all);
    for i in 0..map.len()
        invariant
            all == shapes_of_pairs(map@),
            shape(Tree::Pairs(*map)) == Shape::Pairs(all),
            pair_value(all, key@) == pair_value(all.skip(i as int), key@),
    {
        let pair = &map[i];
        assert(all.skip(i as int)[0] == (shape(pair.0), shape(pair.1)));
        assert(all.skip(i as int).drop_first() =~= all.skip(i + 1));
        match pair.0.as_text() {
            Some(found) => {
                if text::same(found, key) {
                    return Some(&pair.1);
                }
            },
            None => {},
        }
    }
    None
}

// ---------------------------------------------------------------------------
// Parsing
// ---------------------------------------------------------------------------
/// A JSON value.
#[verifier::external_type_specification]
#[verifier::external_body]
pub struct ExJsonValue(serde_json::Value);

/// Turns a `serde_json::Value` into a tree, variant by variant; `serde_json::Number::as_i64`
/// gives the integers. Nothing is stated of the outcome.
#[verifier::external_body]
fn json_tree(value: serde_json::Value) -> Tree {
    match value {
        serde_json::Value::Null => Tree::Opaque,
        serde_json::Value::Bool(_) => Tree::Opaque,
        serde_json::Value::Number(n) => Tree::Number(n.as_i64()),
        serde_json::Value::String(s) => Tree::Text(Some(s)),
        serde_json::Value::Array(items) => Tree::List(items.into_iter().map(json_tree).collect()),
        serde_json::Value::Object(members) => Tree::Pairs(
            members.into_iter().map(|(k, v)| (Tree::Text(Some(k)), json_tree(v))).collect(),
        ),
    }
}

/// The shape of a JSON text, where it is one.
pub uninterp spec fn json_shape(text: Seq<char>) -> Option<Shape>;

/// `serde_json::from_str` into a `serde_json::Value`, taken as a tree: what comes out depends
/// on the text alone.
#[verifier::external_body]
pub(crate) fn parse_json(text: &str) -> (r: Option<Tree>)
    ensures
        (match r {
            Some(tree) => Some(shape(tree)),
            None => None,
        }) == json_shape(text@),
{
    serde_json::from_str::<serde_json::Value>(text).ok().map(json_tree)
}

/// The shape of a JSON document in bytes, where they are one.
pub uninterp spec fn json_bytes_shape(bytes: Seq<u8>) -> Option<Shape>;

/// `serde_json::from_slice` into a `serde_json::Value`, taken as a tree: what comes out depends
/// on the bytes alone.
#[verifier::external_body]
pub(crate) fn parse_json_bytes(bytes: &[u8]) -> (r: Option<Tree>)
    ensures
        (match r {
            Some(tree) => Some(shape(tree)),
            None => None,
        }) == json_bytes_shape(bytes@),
{
    serde_json::from_slice::<serde_json::Value>(bytes).ok().map(json_tree)
}

/// A MessagePack value.
#[verifier::external_type_specification]
#[verifier::external_body]
pub struct ExPackedValue(rmpv::Value);

/// Turns a `rmpv::Value` into a tree, variant by variant; `rmpv::Integer::as_i64` gives the
/// integers and `rmpv::Utf8String::into_str` the texts. Nothing is stated of the outcome.
#[verifier::external_body]
fn packed_tree(value: rmpv::Value) -> Tree {
    match value {
        rmpv::Value::Integer(n) => Tree::Number(n.as_i64()),
        rmpv::Value::String(s) => Tree::Text(s.into_str()),
        rmpv::Value::Array(items) => Tree::List(items.into_iter().map(packed_tree).collect()),
        rmpv::Value::Map(pairs) => Tree::Pairs(
            pairs.into_iter().map(|(k, v)| (packed_tree(k), packed_tree(v))).collect(),
        ),
        rmpv::Value::Nil => Tree::Opaque,
        rmpv::Value::Boolean(_) => Tree::Opaque,
        rmpv::Value::F32(_) => Tree::Opaque,
        rmpv::Value::F64(_) => Tree::Opaque,
        rmpv::Value::Binary(_) => Tree::Opaque,
        rmpv::Value::Ext(_, _) => Tree::Opaque,
    }
}

/// The shape of the MessagePack value at the front of `bytes`, or why there is none.
pub uninterp spec fn packed_shape(bytes: Seq<u8>) -> Result<Shape, Seq<char>>;

/// `rmpv::decode::read_value` on a slice, taken as a tree, with the error given as its text:
/// what comes out depends on the bytes alone.
#[verifier::external_body]
pub(crate) fn parse_packed(bytes: &[u8]) -> (r: Result<Tree, String>)
    ensures
        (match r {
            Ok(tree) => Ok(shape(tree)),
            Err(e) => Err(e@),
        }) == packed_shape(bytes@),
{
    let mut cursor = bytes;
    rmpv::decode::read_value(&mut cursor).map(packed_tree).map_err(|e| e.to_string())
}

} // verus!
