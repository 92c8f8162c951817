//! Converts an html node tree into the source text of a sauron view, in the
//! tag-literal grammar of the `node!` macro or as nested function calls.
pub mod app_state;
pub mod convert;
pub mod laws;
pub mod lookup;
pub mod model;
pub mod syntax;

pub use app_state::{App, Msg};
pub use convert::{depth_within, forest_fits, nodes_to_syntax, root_node};
pub use model::{Attribute, AttributeValue, Element, Node, Options, Value};
pub use syntax::{lone_text, ToSyntax};
