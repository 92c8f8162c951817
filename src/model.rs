//! The node tree that the converter walks.
use vstd::prelude::*;

verus! {

/// A scalar attribute value.
pub enum Value {
    Bool(bool),
    Str(String),
    Int(i64),
    /// A number that is no integer, or a list: it has no string form.
    Other,
}

impl Value {
    /// The string that the value renders as, if it has one.
    pub open spec fn str_view(&self) -> Option<Seq<char>> {
        match self {
            Value::Str(s) => Some(s@),
            _ => None,
        }
    }
}

/// The value held by an attribute.
pub enum AttributeValue {
    /// A single scalar.
    Simple(Value),
    /// Style declarations, each already written as `property:value`.
    Style(Vec<String>),
    /// A value with no rendering.
    Empty,
}

/// An attribute of an element, in the order in which it was written.
pub struct Attribute {
    pub namespace: Option<String>,
    pub name: String,
    pub values: Vec<AttributeValue>,
}

/// An html or svg element.
pub struct Element {
    pub tag: String,
    pub attributes: Vec<Attribute>,
    pub children: Vec<Node>,
}

/// A node of the tree.
pub enum Node {
    Text(String),
    Comment(String),
    Element(Element),
}

/// Which grammar to emit, and which list syntax the call grammar uses.
#[derive(Clone, Copy)]
pub struct Options {
    /// Emit the tag-literal grammar of the `node!` macro instead of function calls.
    pub use_macro: bool,
    /// Use array literals instead of `vec![..]` in the call grammar.
    pub use_array: bool,
}

impl Default for Options {
    fn default() -> (r: Options)
        ensures
            !r.use_macro,
            !r.use_array,
    {
        Options { use_macro: false, use_array: false }
    }
}

} // verus!
