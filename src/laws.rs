//! Properties of the text the converter writes.
use vstd::prelude::*;
use crate::convert::{forest_syntax, root_indent, root_syntax};
use crate::lookup::is_self_closing_tag;
use crate::model::{Attribute, AttributeValue, Element, Node, Options};
use crate::syntax::{
    attribute_syntax, attribute_value_syntax, call_attributes, child_lead, children_syntax, closing_break,
    element_syntax, indent_spaces, is_lone_text, list_open, macro_attributes, node_syntax, quoted,
    style_decls,
};

verus! {

/// Converting the same forest with the same options twice gives the same text.
pub proof fn law_deterministic(nodes: Seq<Node>, options: Options, r1: Seq<char>, r2: Seq<char>)
    requires
        r1 == forest_syntax(nodes, options),
        r2 == forest_syntax(nodes, options),
    ensures
        r1 == r2,
{
}

/// A forest of more than one node is written as a `div` with no attributes whose
/// children are the forest's nodes in their order.
pub proof fn law_multi_root_wrapped(nodes: Seq<Node>, options: Options, wrapper: Element)
    requires
        nodes.len() > 1,
        wrapper.tag@ == "div"@,
        wrapper.attributes@.len() == 0,
        wrapper.children@ == nodes,
    ensures
        root_syntax(nodes, options) == node_syntax(
            Node::Element(wrapper),
            options,
            root_indent(options),
        ),
{
    assert(wrapper.attributes@ =~= Seq::empty());
}

/// A forest of one node is written from that node, with no wrapper.
pub proof fn law_single_root_unwrapped(nodes: Seq<Node>, options: Options)
    requires
        nodes.len() == 1,
    ensures
        root_syntax(nodes, options) == node_syntax(nodes[0], options, root_indent(options)),
        forest_syntax(nodes, options) == if options.use_macro {
            "node! {\n"@ + node_syntax(nodes[0], options, 1) + "\n}"@
        } else {
            node_syntax(nodes[0], options, 0)
        },
{
}

/// What an element writes before its children.
pub open spec fn opening_syntax(e: Element, options: Options) -> Seq<char> {
    if options.use_macro {
        "<"@ + e.tag@ + macro_attributes(e.attributes@) + if is_self_closing_tag(e.tag@) {
            Seq::empty()
        } else {
            ">"@
        }
    } else {
        e.tag@ + "("@ + list_open(options) + call_attributes(e.attributes@) + "],"@ + list_open(
            options,
        )
    }
}

/// What an element with a lone text child writes after it.
pub open spec fn inline_closing_syntax(e: Element, options: Options) -> Seq<char> {
    if options.use_macro {
        if is_self_closing_tag(e.tag@) {
            "/>"@
        } else {
            "</"@ + e.tag@ + ">"@
        }
    } else {
        "])"@
    }
}

/// An element whose only child is a text node writes that text right after its
/// opening, with no line break before it and nothing between it and the closing.
pub proof fn law_lone_text_inlined(e: Element, t: String, options: Options, indent: nat)
    requires
        e.children@ == seq![Node::Text(t)],
    ensures
        node_syntax(Node::Element(e), options, indent) == indent_spaces(indent) + opening_syntax(
            e,
            options,
        ) + node_syntax(Node::Text(t), options, indent) + inline_closing_syntax(e, options),
{
    assert(is_lone_text(e.children@));
}

/// In the tag-literal grammar a self-closing tag ends with `/>`; with no children it
/// is written as its opening and `/>` alone, with no closing tag.
pub proof fn law_self_closing(e: Element, options: Options, indent: nat)
    requires
        options.use_macro,
        is_self_closing_tag(e.tag@),
    ensures
        node_syntax(Node::Element(e), options, indent) == indent_spaces(indent) + "<"@ + e.tag@
            + macro_attributes(e.attributes@) + (if is_lone_text(e.children@) {
            node_syntax(e.children@[0], options, indent)
        } else {
            children_syntax(e.children@, options, indent)
        }) + "/>"@,
        e.children@.len() == 0 ==> node_syntax(Node::Element(e), options, indent) == indent_spaces(
            indent,
        ) + "<"@ + e.tag@ + macro_attributes(e.attributes@) + "/>"@,
{
    let body = if is_lone_text(e.children@) {
        node_syntax(e.children@[0], options, indent)
    } else {
        children_syntax(e.children@, options, indent)
    };
    assert(node_syntax(Node::Element(e), options, indent) =~= indent_spaces(indent) + "<"@
        + e.tag@ + macro_attributes(e.attributes@) + body + "/>"@);
    if e.children@.len() == 0 {
        assert(body =~= Seq::empty());
        assert(node_syntax(Node::Element(e), options, indent) =~= indent_spaces(indent) + "<"@
            + e.tag@ + macro_attributes(e.attributes@) + "/>"@);
    }
}

/// Tag-literal attributes keep their order: those of `a` then `b` are written as
/// those of `a` followed by those of `b`.
pub proof fn law_macro_attribute_order(a: Seq<Attribute>, b: Seq<Attribute>)
    ensures
        macro_attributes(a + b) == macro_attributes(a) + macro_attributes(b),
    decreases b.len(),
{
    if b.len() == 0 {
        assert(a + b =~= a);
        assert(macro_attributes(a) + macro_attributes(b) =~= macro_attributes(a));
    } else {
        assert((a + b).drop_last() =~= a + b.drop_last());
        assert((a + b).last() == b.last());
        law_macro_attribute_order(a, b.drop_last());
        assert(macro_attributes(a + b) =~= macro_attributes(a) + macro_attributes(b));
    }
}

/// One attribute is written once: after a space in a tag literal, followed by a comma
/// in a call. With the two order laws, a list is written as each of its attributes in
/// turn, none dropped, repeated or moved.
pub proof fn law_one_attribute(x: Attribute)
    ensures
        macro_attributes(seq![x]) == " "@ + attribute_syntax(x, true),
        call_attributes(seq![x]) == attribute_syntax(x, false) + ","@,
{
    let one = seq![x];
    assert(one.drop_last() =~= Seq::<Attribute>::empty());
    assert(one.last() == x);
    assert(macro_attributes(one.drop_last()) =~= Seq::<char>::empty());
    assert(call_attributes(one.drop_last()) =~= Seq::<char>::empty());
    assert(macro_attributes(seq![x]) =~= " "@ + attribute_syntax(x, true));
    assert(call_attributes(seq![x]) =~= attribute_syntax(x, false) + ","@);
}

/// Call attributes keep their order: those of `a` then `b` are written as those of
/// `a` followed by those of `b`.
pub proof fn law_call_attribute_order(a: Seq<Attribute>, b: Seq<Attribute>)
    ensures
        call_attributes(a + b) == call_attributes(a) + call_attributes(b),
    decreases b.len(),
{
    if b.len() == 0 {
        assert(a + b =~= a);
        assert(call_attributes(a) + call_attributes(b) =~= call_attributes(a));
    } else {
        assert((a + b).drop_last() =~= a + b.drop_last());
        assert((a + b).last() == b.last());
        law_call_attribute_order(a, b.drop_last());
        assert(call_attributes(a + b) =~= call_attributes(a) + call_attributes(b));
    }
}

/// A style attribute is written as one quoted string of its declarations, each
/// followed by a semicolon, in order.
pub proof fn law_style_folded(a: Attribute, d: Vec<String>, e: Seq<String>, use_macro: bool)
    ensures
        attribute_value_syntax(a, AttributeValue::Style(d), use_macro) == if use_macro {
            "style="@ + quoted(style_decls(d@))
        } else {
            "style("@ + quoted(style_decls(d@)) + ")"@
        },
        style_decls(d@ + e) == style_decls(d@) + style_decls(e),
        e.len() == 1 ==> style_decls(e) == e[0]@ + ";"@,
    decreases e.len(),
{
    reveal_strlit("style=\"");
    reveal_strlit("style=");
    reveal_strlit("style(\"");
    reveal_strlit("style(");
    reveal_strlit("\")");
    reveal_strlit(")");
    reveal_strlit("\"");
    assert(("style=\""@ + style_decls(d@) + "\""@) =~= "style="@ + quoted(style_decls(d@)));
    assert(("style(\""@ + style_decls(d@) + "\")"@) =~= "style("@ + quoted(style_decls(d@))
        + ")"@);
    if e.len() == 0 {
        assert(d@ + e =~= d@);
        assert(style_decls(d@) + style_decls(e) =~= style_decls(d@));
    } else {
        assert((d@ + e).drop_last() =~= d@ + e.drop_last());
        assert((d@ + e).last() == e.last());
        law_style_folded(a, d, e.drop_last(), use_macro);
        assert(style_decls(d@ + e) =~= style_decls(d@) + style_decls(e));
        if e.len() == 1 {
            assert(e.drop_last() =~= Seq::empty());
            assert(style_decls(e) =~= e[0]@ + ";"@);
        }
    }
}

/// The list style is ignored by the tag-literal grammar: a node is written the same
/// whichever list style is chosen.
pub proof fn law_macro_ignores_list_style(n: Node, a: bool, b: bool, indent: nat)
    ensures
        node_syntax(n, (Options { use_macro: true, use_array: a }), indent) == node_syntax(
            n,
            (Options { use_macro: true, use_array: b }),
            indent,
        ),
    decreases n, 0nat,
{
    if let Node::Element(e) = n {
        lemma_element_ignores_list_style(e.tag@, e.attributes@, e.children@, a, b, indent);
    }
}

proof fn lemma_children_ignore_list_style(cs: Seq<Node>, a: bool, b: bool, indent: nat)
    ensures
        children_syntax(cs, (Options { use_macro: true, use_array: a }), indent)
            == children_syntax(cs, (Options { use_macro: true, use_array: b }), indent),
    decreases cs, 1nat,
{
    if cs.len() > 0 {
        lemma_children_ignore_list_style(cs.drop_last(), a, b, indent);
        law_macro_ignores_list_style(cs.last(), a, b, indent + 1);
    }
}

proof fn lemma_element_ignores_list_style(
    tag: Seq<char>,
    attrs: Seq<Attribute>,
    cs: Seq<Node>,
    a: bool,
    b: bool,
    indent: nat,
)
    ensures
        element_syntax(tag, attrs, cs, (Options { use_macro: true, use_array: a }), indent)
            == element_syntax(tag, attrs, cs, (Options { use_macro: true, use_array: b }), indent),
    decreases cs, 2nat,
{
    if is_lone_text(cs) {
        law_macro_ignores_list_style(cs[0], a, b, indent);
    } else {
        lemma_children_ignore_list_style(cs, a, b, indent);
    }
}

/// The call grammar with the list-opening token `open` left as a parameter.
pub open spec fn call_template(n: Node, open: Seq<char>, indent: nat) -> Seq<char>
    decreases n, 0nat,
{
    match n {
        Node::Text(t) => "text("@ + quoted(t@) + ")"@,
        Node::Comment(c) => "comment("@ + quoted(c@) + ")"@,
        Node::Element(e) => indent_spaces(indent) + call_element_template(
            e.tag@,
            e.attributes@,
            e.children@,
            open,
            indent,
        ),
    }
}

/// The children lines of the call grammar, with the list-opening token `open`.
pub open spec fn call_children_template(cs: Seq<Node>, open: Seq<char>, indent: nat) -> Seq<char>
    decreases cs, 1nat,
{
    if cs.len() == 0 {
        Seq::empty()
    } else {
        call_children_template(cs.drop_last(), open, indent) + "\n"@ + child_lead(
            cs.last(),
            indent + 1,
        ) + call_template(cs.last(), open, indent + 1) + ","@
    }
}

/// An element in the call grammar, with the list-opening token `open`.
pub open spec fn call_element_template(
    tag: Seq<char>,
    attrs: Seq<Attribute>,
    cs: Seq<Node>,
    open: Seq<char>,
    indent: nat,
) -> Seq<char>
    decreases cs, 2nat,
{
    let body = if is_lone_text(cs) {
        call_template(cs[0], open, indent)
    } else {
        call_children_template(cs, open, indent)
    };
    tag + "("@ + open + call_attributes(attrs) + "],"@ + open + body + closing_break(cs, indent)
        + "])"@
}

/// In the call grammar the list style changes only the list-opening tokens: the text
/// is one template filled with `[` for arrays or `vec![` otherwise, at every depth.
pub proof fn law_list_style_changes_only_list_tokens(n: Node, use_array: bool, indent: nat)
    ensures
        node_syntax(n, (Options { use_macro: false, use_array }), indent) == call_template(
            n,
            if use_array {
                "["@
            } else {
                "vec!["@
            },
            indent,
        ),
    decreases n, 0nat,
{
    if let Node::Element(e) = n {
        lemma_element_call_template(e.tag@, e.attributes@, e.children@, use_array, indent);
    }
}

proof fn lemma_children_call_template(cs: Seq<Node>, use_array: bool, indent: nat)
    ensures
        children_syntax(cs, (Options { use_macro: false, use_array }), indent)
            == call_children_template(
            cs,
            list_open((Options { use_macro: false, use_array })),
            indent,
        ),
    decreases cs, 1nat,
{
    if cs.len() > 0 {
        lemma_children_call_template(cs.drop_last(), use_array, indent);
        law_list_style_changes_only_list_tokens(cs.last(), use_array, indent + 1);
    }
}

proof fn lemma_element_call_template(
    tag: Seq<char>,
    attrs: Seq<Attribute>,
    cs: Seq<Node>,
    use_array: bool,
    indent: nat,
)
    ensures
        element_syntax(tag, attrs, cs, (Options { use_macro: false, use_array }), indent)
            == call_element_template(
            tag,
            attrs,
            cs,
            list_open((Options { use_macro: false, use_array })),
            indent,
        ),
    decreases cs, 2nat,
{
    if is_lone_text(cs) {
        law_list_style_changes_only_list_tokens(cs[0], use_array, indent);
    } else {
        lemma_children_call_template(cs, use_array, indent);
    }
}

} // verus!
