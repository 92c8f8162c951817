//! From a parsed forest of nodes to the finished text.
use vstd::prelude::*;
use crate::model::{Element, Node, Options};
use crate::syntax::{
    children_depth, element_syntax, indent_spaces, lemma_children_depth, node_depth,
    node_syntax, ToSyntax,
};

verus! {

/// The indent level that the root is written at: inside the `node!` fence or at the margin.
pub open spec fn root_indent(options: Options) -> nat {
    if options.use_macro {
        1
    } else {
        0
    }
}

/// The root written for a forest: the single node itself; else a `div` holding the
/// forest in order, or an empty `html` when there is nothing.
pub open spec fn root_syntax(nodes: Seq<Node>, options: Options) -> Seq<char> {
    let k = root_indent(options);
    if nodes.len() == 1 {
        node_syntax(nodes[0], options, k)
    } else if nodes.len() == 0 {
        indent_spaces(k) + element_syntax("html"@, Seq::empty(), Seq::empty(), options, k)
    } else {
        indent_spaces(k) + element_syntax("div"@, Seq::empty(), nodes, options, k)
    }
}

/// The whole text for a forest.
pub open spec fn forest_syntax(nodes: Seq<Node>, options: Options) -> Seq<char> {
    if options.use_macro {
        "node! {\n"@ + root_syntax(nodes, options) + "\n}"@
    } else {
        root_syntax(nodes, options)
    }
}

/// The root that a forest is written from.
pub fn root_node(nodes: Vec<Node>) -> (r: Node)
    ensures
        nodes@.len() == 1 ==> r == nodes@[0],
        nodes@.len() == 0 ==> (r matches Node::Element(e) && e.tag@ == "html"@
            && e.attributes@.len() == 0 && e.children@.len() == 0),
        nodes@.len() > 1 ==> (r matches Node::Element(e) && e.tag@ == "div"@
            && e.attributes@.len() == 0 && e.children@ == nodes@),
{
    let mut nodes = nodes;
    if nodes.len() == 1 {
        nodes.remove(0)
    } else if nodes.len() == 0 {
        Node::Element(Element { tag: String::from_str("html"), attributes: Vec::new(), children: nodes })
    } else {
        Node::Element(Element { tag: String::from_str("div"), attributes: Vec::new(), children: nodes })
    }
}

proof fn lemma_children_depth_bound(cs: Seq<Node>, k: nat)
    requires
        forall|i: int| 0 <= i < cs.len() ==> node_depth(#[trigger] cs[i]) <= k,
    ensures
        children_depth(cs) <= k,
    decreases cs.len(),
{
    if cs.len() > 0 {
        let d = cs.drop_last();
        assert forall|i: int| 0 <= i < d.len() implies node_depth(#[trigger] d[i]) <= k by {
            assert(d[i] == cs[i]);
        }
        lemma_children_depth_bound(d, k);
        assert(node_depth(cs[cs.len() - 1]) <= k);
    }
}

/// Whether node `n` holds at most `limit` levels of elements.
pub fn depth_within(n: &Node, limit: usize) -> (r: bool)
    ensures
        r == (node_depth(*n) <= limit),
    decreases *n, 1nat,
{
    match n {
        Node::Element(e) => {
            if limit == 0 {
                false
            } else {
                children_within(&e.children, limit - 1)
            }
        },
        _ => true,
    }
}

/// Whether each of `cs` holds at most `limit` levels of elements.
fn children_within(cs: &Vec<Node>, limit: usize) -> (r: bool)
    ensures
        r == (children_depth(cs@) <= limit),
    decreases cs@, 0nat,
{
    let mut i: usize = 0;
    while i < cs.len()
        invariant
            i <= cs@.len(),
            forall|j: int| 0 <= j < i ==> node_depth(#[trigger] cs@[j]) <= limit,
        decreases cs@.len() - i,
    {
        if !depth_within(&cs[i], limit) {
            proof {
                lemma_children_depth(cs@, i as int);
            }
            return false;
        }
        i = i + 1;
    }
    proof {
        lemma_children_depth_bound(cs@, limit as nat);
    }
    true
}

/// Whether a forest can be written: its levels of elements, below the root
/// and its indent, fit in a `usize`.
pub fn forest_fits(nodes: &Vec<Node>) -> (r: bool)
    ensures
        r == (children_depth(nodes@) + 3 <= usize::MAX),
{
    children_within(nodes, usize::MAX - 3)
}

/// Writes a parsed forest as the source text of a sauron view: inside a `node!`
/// fence in the macro grammar, at the margin in the call grammar.
pub fn nodes_to_syntax(nodes: Vec<Node>, options: Options) -> (r: String)
    requires
        children_depth(nodes@) + 3 <= usize::MAX,
    ensures
        r@ == forest_syntax(nodes@, options),
{
    let ghost forest = nodes@;
    let root = root_node(nodes);
    let mut buffer = String::new();
    let indent: usize = if options.use_macro { 1 } else { 0 };
    proof {
        if forest.len() == 1 {
            lemma_children_depth(forest, 0);
        } else {
            let e = root->Element_0;
            assert(e.attributes@ =~= Seq::empty());
            if forest.len() == 0 {
                assert(e.children@ =~= Seq::empty());
            }
        }
    }
    if options.use_macro {
        buffer.append("node! {\n");
        root.to_syntax(&mut buffer, options, indent);
        buffer.append("\n}");
    } else {
        root.to_syntax(&mut buffer, options, indent);
    }
    buffer
}

} // verus!
