//! Tag and attribute knowledge, taken from sauron's lookup tables.
use vstd::prelude::*;

verus! {

/// The tags that have no closing form: `<br/>`, `<img/>`, `<input/>` and the like.
pub open spec fn is_self_closing_tag(tag: Seq<char>) -> bool {
    tag == "area"@ || tag == "base"@ || tag == "br"@ || tag == "col"@ || tag == "command"@
        || tag == "embed"@ || tag == "hr"@ || tag == "img"@ || tag == "input"@ || tag
        == "keygen"@ || tag == "link"@ || tag == "meta"@ || tag == "param"@ || tag
        == "source"@ || tag == "track"@ || tag == "wbr"@
}

/// The name of the sauron function that sets the attribute `name`, if there is one.
pub uninterp spec fn attribute_function_of(name: Seq<char>) -> Option<Seq<char>>;

/// Relies on sauron::html::lookup::is_self_closing: membership in sauron's list of
/// self-closing html tags, compared exactly.
#[verifier::external_body]
pub(crate) fn is_self_closing(tag: &str) -> (r: bool)
    ensures
        r == is_self_closing_tag(tag@),
{
    sauron::html::lookup::is_self_closing(tag)
}

/// Relies on sauron::html::lookup::attribute_function: a lookup in a fixed ordered
/// table from attribute name to function name, so the result depends on `name` alone.
#[verifier::external_body]
pub(crate) fn attribute_function(name: &str) -> (r: Option<String>)
    ensures
        match r {
            Some(f) => attribute_function_of(name@) == Some(f@),
            None => attribute_function_of(name@).is_none(),
        },
{
    sauron::html::lookup::attribute_function(name).map(|f| f.to_string())
}

} // verus!
