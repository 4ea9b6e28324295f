//! The document tree that bundle and gate files are written in.
//!
//! A document is a list of nodes; each node has a name, positional
//! arguments and named properties, and may carry child nodes.  The
//! bundle and gate grammars never nest deeper than a node with leaf
//! children, so the tree is modelled with two fixed shapes: [`Leaf`]
//! for a childless node and [`Branch`] for a node whose children are
//! leaves.  The unverified binary converts between this tree and the
//! on-disk text form.

use vstd::prelude::*;

verus! {

/// A scalar argument or property value of a document node.
#[derive(Debug, Clone, PartialEq)]
pub enum Value {
    Str(String),
    Int(i64),
    Bool(bool),
}

/// The character content of a string value; meaningful only when the
/// value is a string.
pub open spec fn val_str(v: Value) -> Seq<char> {
    v->Str_0@
}

/// A named property of a node.
#[derive(Debug, Clone, PartialEq)]
pub struct Prop {
    pub key: String,
    pub val: Value,
}

/// A childless document node.
#[derive(Debug, Clone, PartialEq)]
pub struct Leaf {
    pub name: String,
    pub args: Vec<Value>,
    pub props: Vec<Prop>,
}

/// A document node whose children are childless nodes.
#[derive(Debug, Clone, PartialEq)]
pub struct Branch {
    pub name: String,
    pub args: Vec<Value>,
    pub children: Vec<Leaf>,
}

/// One top-level node of a bundle document.
#[derive(Debug, Clone, PartialEq)]
pub enum PkgItem {
    Leaf(Leaf),
    Branch(Branch),
}

/// One top-level node of a gate document; a `Pkg` node carries a whole
/// embedded package stub.
#[derive(Debug, Clone, PartialEq)]
pub enum GateItem {
    Leaf(Leaf),
    Branch(Branch),
    Pkg(Vec<PkgItem>),
}

/// The name of a top-level bundle node.
pub open spec fn item_name(it: PkgItem) -> Seq<char> {
    match it {
        PkgItem::Leaf(l) => l.name@,
        PkgItem::Branch(b) => b.name@,
    }
}

/// The value of the named property; when a property is repeated, the
/// rightmost occurrence wins.
pub open spec fn prop_last(props: Seq<Prop>, key: Seq<char>) -> Option<Value>
    decreases props.len(),
{
    if props.len() == 0 {
        None
    } else if props.last().key@ == key {
        Some(props.last().val)
    } else {
        prop_last(props.drop_last(), key)
    }
}

/// The winning value of the named property, as a string.  `None` both
/// when the property is absent and when it is not a string; the shape
/// predicates of the schema rule the latter out.
pub open spec fn prop_last_str(props: Seq<Prop>, key: Seq<char>) -> Option<Seq<char>> {
    match prop_last(props, key) {
        Some(v) => if v is Str {
            Some(v->Str_0@)
        } else {
            None
        },
        None => None,
    }
}

/// The winning value of the named property, as a boolean.
pub open spec fn prop_last_bool(props: Seq<Prop>, key: Seq<char>) -> Option<bool> {
    match prop_last(props, key) {
        Some(v) => if v is Bool {
            Some(v->Bool_0)
        } else {
            None
        },
        None => None,
    }
}

/// The winning value of the named property, as an integer.
pub open spec fn prop_last_int(props: Seq<Prop>, key: Seq<char>) -> Option<i64> {
    match prop_last(props, key) {
        Some(v) => if v is Int {
            Some(v->Int_0)
        } else {
            None
        },
        None => None,
    }
}

/// The rightmost top-level node with the given name.
pub open spec fn last_named(items: Seq<PkgItem>, name: Seq<char>) -> Option<PkgItem>
    decreases items.len(),
{
    if items.len() == 0 {
        None
    } else if item_name(items.last()) == name {
        Some(items.last())
    } else {
        last_named(items.drop_last(), name)
    }
}

/// The rightmost child leaf with the given name.
pub open spec fn last_child(children: Seq<Leaf>, name: Seq<char>) -> Option<Leaf>
    decreases children.len(),
{
    if children.len() == 0 {
        None
    } else if children.last().name@ == name {
        Some(children.last())
    } else {
        last_child(children.drop_last(), name)
    }
}

/// The single string argument of a leaf item; meaningful only for
/// leaves that the shape predicates constrain to one string argument.
pub open spec fn leaf_arg_str(it: PkgItem) -> Seq<char> {
    val_str(it->Leaf_0.args@[0])
}

/// A leaf that carries exactly one string argument and nothing else.
pub open spec fn scalar_leaf_ok(l: Leaf) -> bool {
    &&& l.args@.len() == 1
    &&& l.args@[0] is Str
    &&& l.props@.len() == 0
}

/// A leaf that carries no arguments and no properties.
pub open spec fn bare_leaf_ok(l: Leaf) -> bool {
    &&& l.args@.len() == 0
    &&& l.props@.len() == 0
}

/// The string argument of the winning scalar node with the given name.
pub open spec fn scalar_of(items: Seq<PkgItem>, name: Seq<char>) -> Option<Seq<char>> {
    match last_named(items, name) {
        Some(it) => Some(leaf_arg_str(it)),
        None => None,
    }
}

/// The string argument of the winning scalar child with the given name.
pub open spec fn child_scalar_of(children: Seq<Leaf>, name: Seq<char>) -> Option<Seq<char>> {
    match last_child(children, name) {
        Some(l) => Some(val_str(l.args@[0])),
        None => None,
    }
}

/// The string held by a value, if it is one.
pub fn value_str_ref<'a>(v: &'a Value) -> (r: Option<&'a String>)
    ensures
        match r {
            Some(s) => *v is Str && s@ == val_str(*v),
            None => !(*v is Str),
        },
{
    match v {
        Value::Str(s) => Some(s),
        _ => None,
    }
}

/// The boolean held by a value, if it is one.
pub fn value_bool(v: &Value) -> (r: Option<bool>)
    ensures
        match r {
            Some(b) => *v is Bool && b == v->Bool_0,
            None => !(*v is Bool),
        },
{
    match v {
        Value::Bool(b) => Some(*b),
        _ => None,
    }
}

/// The integer held by a value, if it is one.
pub fn value_int(v: &Value) -> (r: Option<i64>)
    ensures
        match r {
            Some(n) => *v is Int && n == v->Int_0,
            None => !(*v is Int),
        },
{
    match v {
        Value::Int(n) => Some(*n),
        _ => None,
    }
}

} // verus!
