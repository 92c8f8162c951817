//! What the converter emits, as spec functions, and the code that emits it.
use vstd::prelude::*;
use crate::lookup::{attribute_function, attribute_function_of, is_self_closing, is_self_closing_tag};
use crate::model::{Attribute, AttributeValue, Element, Node, Options, Value};

verus! {

/// `s` between double quotes, copied verbatim.
pub open spec fn quoted(s: Seq<char>) -> Seq<char> {
    "\""@ + s + "\""@
}

/// Four spaces for each level.
pub open spec fn indent_spaces(n: nat) -> Seq<char>
    decreases n,
{
    if n == 0 {
        Seq::empty()
    } else {
        indent_spaces((n - 1) as nat) + "    "@
    }
}

/// A scalar value: its string quoted, or nothing.
pub open spec fn value_syntax(v: Value) -> Seq<char> {
    match v.str_view() {
        Some(s) => quoted(s),
        None => Seq::empty(),
    }
}

/// Each style declaration followed by a semicolon, in order.
pub open spec fn style_decls(d: Seq<String>) -> Seq<char>
    decreases d.len(),
{
    if d.len() == 0 {
        Seq::empty()
    } else {
        style_decls(d.drop_last()) + d.last()@ + ";"@
    }
}

/// One value of attribute `a`.
pub open spec fn attribute_value_syntax(a: Attribute, v: AttributeValue, use_macro: bool) -> Seq<
    char,
> {
    match v {
        AttributeValue::Simple(val) => {
            let vs = value_syntax(val);
            if a.namespace.is_some() {
                if use_macro {
                    "xlink::"@ + a.name@ + "="@ + vs
                } else {
                    "xlink_"@ + a.name@ + "("@ + vs + ")"@
                }
            } else {
                match attribute_function_of(a.name@) {
                    Some(f) => if use_macro {
                        f + "="@ + vs
                    } else {
                        f + "("@ + vs + ")"@
                    },
                    None => if use_macro {
                        a.name@ + "="@ + vs
                    } else {
                        "attr(\""@ + a.name@ + "\","@ + vs + ")"@
                    },
                }
            }
        },
        AttributeValue::Style(d) => if use_macro {
            "style=\""@ + style_decls(d@) + "\""@
        } else {
            "style(\""@ + style_decls(d@) + "\")"@
        },
        AttributeValue::Empty => Seq::empty(),
    }
}

/// The values `vals` of attribute `a`, one after the other.
pub open spec fn attribute_values_syntax(
    a: Attribute,
    vals: Seq<AttributeValue>,
    use_macro: bool,
) -> Seq<char>
    decreases vals.len(),
{
    if vals.len() == 0 {
        Seq::empty()
    } else {
        attribute_values_syntax(a, vals.drop_last(), use_macro) + attribute_value_syntax(
            a,
            vals.last(),
            use_macro,
        )
    }
}

/// Attribute `a` in the chosen grammar.
pub open spec fn attribute_syntax(a: Attribute, use_macro: bool) -> Seq<char> {
    attribute_values_syntax(a, a.values@, use_macro)
}

/// The attributes of a tag literal: each after a space.
pub open spec fn macro_attributes(attrs: Seq<Attribute>) -> Seq<char>
    decreases attrs.len(),
{
    if attrs.len() == 0 {
        Seq::empty()
    } else {
        macro_attributes(attrs.drop_last()) + " "@ + attribute_syntax(attrs.last(), true)
    }
}

/// The attributes of a call: each followed by a comma.
pub open spec fn call_attributes(attrs: Seq<Attribute>) -> Seq<char>
    decreases attrs.len(),
{
    if attrs.len() == 0 {
        Seq::empty()
    } else {
        call_attributes(attrs.drop_last()) + attribute_syntax(attrs.last(), false) + ","@
    }
}

/// Writes `s` quoted.
fn write_quoted(buffer: &mut String, s: &str)
    ensures
        final(buffer)@ == old(buffer)@ + quoted(s@),
{
    buffer.append("\"");
    buffer.append(s);
    buffer.append("\"");
}

/// Writes the value as a string literal; a value that is no string writes nothing.
fn write_value(val: &Value, buffer: &mut String)
    ensures
        final(buffer)@ == old(buffer)@ + value_syntax(*val),
{
    match val {
        Value::Str(s) => write_quoted(buffer, s.as_str()),
        _ => {},
    }
}

/// Writes the style declarations, each followed by a semicolon.
fn write_style_decls(buffer: &mut String, decls: &Vec<String>)
    ensures
        final(buffer)@ == old(buffer)@ + style_decls(decls@),
{
    let ghost start = buffer@;
    let mut i: usize = 0;
    while i < decls.len()
        invariant
            i <= decls@.len(),
            buffer@ == start + style_decls(decls@.take(i as int)),
        decreases decls@.len() - i,
    {
        buffer.append(decls[i].as_str());
        buffer.append(";");
        proof {
            assert(decls@.take(i as int + 1).drop_last() =~= decls@.take(i as int));
        }
        i = i + 1;
    }
    assert(decls@.take(i as int) =~= decls@);
}

impl Attribute {
    /// Writes one value of this attribute.
    fn write_value_of(&self, v: &AttributeValue, buffer: &mut String, use_macro: bool)
        ensures
            final(buffer)@ == old(buffer)@ + attribute_value_syntax(*self, *v, use_macro),
    {
        match v {
            AttributeValue::Simple(val) => {
                if self.namespace.is_some() {
                    if use_macro {
                        buffer.append("xlink::");
                        buffer.append(self.name.as_str());
                        buffer.append("=");
                        write_value(val, buffer);
                    } else {
                        buffer.append("xlink_");
                        buffer.append(self.name.as_str());
                        buffer.append("(");
                        write_value(val, buffer);
                        buffer.append(")");
                    }
                } else {
                    match attribute_function(self.name.as_str()) {
                        Some(f) => {
                            buffer.append(f.as_str());
                            if use_macro {
                                buffer.append("=");
                                write_value(val, buffer);
                            } else {
                                buffer.append("(");
                                write_value(val, buffer);
                                buffer.append(")");
                            }
                        },
                        None => {
                            if use_macro {
                                buffer.append(self.name.as_str());
                                buffer.append("=");
                                write_value(val, buffer);
                            } else {
                                buffer.append("attr(\"");
                                buffer.append(self.name.as_str());
                                buffer.append("\",");
                                write_value(val, buffer);
                                buffer.append(")");
                            }
                        },
                    }
                }
            },
            AttributeValue::Style(decls) => {
                if use_macro {
                    buffer.append("style=\"");
                    write_style_decls(buffer, decls);
                    buffer.append("\"");
                } else {
                    buffer.append("style(\"");
                    write_style_decls(buffer, decls);
                    buffer.append("\")");
                }
            },
            AttributeValue::Empty => {},
        }
    }

    /// Writes this attribute: each of its values in turn.
    fn write(&self, buffer: &mut String, use_macro: bool)
        ensures
            final(buffer)@ == old(buffer)@ + attribute_syntax(*self, use_macro),
    {
        let ghost start = buffer@;
        let mut i: usize = 0;
        while i < self.values.len()
            invariant
                i <= self.values@.len(),
                buffer@ == start + attribute_values_syntax(
                    *self,
                    self.values@.take(i as int),
                    use_macro,
                ),
            decreases self.values@.len() - i,
        {
            self.write_value_of(&self.values[i], buffer, use_macro);
            proof {
                assert(self.values@.take(i as int + 1).drop_last() =~= self.values@.take(i as int));
            }
            i = i + 1;
        }
        assert(self.values@.take(i as int) =~= self.values@);
    }
}


/// The opening token of a list in the call grammar.
pub open spec fn list_open(opts: Options) -> Seq<char> {
    if opts.use_array {
        "["@
    } else {
        "vec!["@
    }
}

/// Whether the children are a single text node, which is written on the parent's line.
pub open spec fn is_lone_text(children: Seq<Node>) -> bool {
    children.len() == 1 && children[0] is Text
}

/// Node `n` at indent level `indent`. A comment is written as a `comment(..)` call in
/// both grammars.
pub open spec fn node_syntax(n: Node, opts: Options, indent: nat) -> Seq<char>
    decreases n, 0nat,
{
    match n {
        Node::Text(t) => if opts.use_macro {
            quoted(t@)
        } else {
            "text("@ + quoted(t@) + ")"@
        },
        Node::Comment(c) => "comment("@ + quoted(c@) + ")"@,
        Node::Element(e) => indent_spaces(indent) + element_syntax(
            e.tag@,
            e.attributes@,
            e.children@,
            opts,
            indent,
        ),
    }
}

/// The indentation that starts a child's own line: an element indents itself, a text
/// or comment child is indented here.
pub open spec fn child_lead(n: Node, indent: nat) -> Seq<char> {
    if n is Element {
        Seq::empty()
    } else {
        indent_spaces(indent)
    }
}

/// The children that are not inlined: each on a line of its own, one level deeper,
/// and in the call grammar each followed by a comma.
pub open spec fn children_syntax(cs: Seq<Node>, opts: Options, indent: nat) -> Seq<char>
    decreases cs, 1nat,
{
    if cs.len() == 0 {
        Seq::empty()
    } else {
        children_syntax(cs.drop_last(), opts, indent) + "\n"@ + child_lead(cs.last(), indent + 1)
            + node_syntax(cs.last(), opts, indent + 1) + if opts.use_macro {
            Seq::empty()
        } else {
            ","@
        }
    }
}

/// What follows the children and comes before the closing token.
pub open spec fn closing_break(children: Seq<Node>, indent: nat) -> Seq<char> {
    if is_lone_text(children) || children.len() == 0 {
        Seq::empty()
    } else {
        "\n"@ + indent_spaces(indent)
    }
}

/// An element with the given parts, from its opening token on.
pub open spec fn element_syntax(
    tag: Seq<char>,
    attrs: Seq<Attribute>,
    children: Seq<Node>,
    opts: Options,
    indent: nat,
) -> Seq<char>
    decreases children, 2nat,
{
    let body = if is_lone_text(children) {
        node_syntax(children[0], opts, indent)
    } else {
        children_syntax(children, opts, indent)
    };
    if opts.use_macro {
        if is_self_closing_tag(tag) {
            "<"@ + tag + macro_attributes(attrs) + body + "/>"@
        } else {
            "<"@ + tag + macro_attributes(attrs) + ">"@ + body + closing_break(children, indent)
                + "</"@ + tag + ">"@
        }
    } else {
        tag + "("@ + list_open(opts) + call_attributes(attrs) + "],"@ + list_open(opts) + body
            + closing_break(children, indent) + "])"@
    }
}


/// How many levels of elements `n` holds.
pub open spec fn node_depth(n: Node) -> nat
    decreases n, 1nat,
{
    match n {
        Node::Element(e) => 1 + children_depth(e.children@),
        _ => 0,
    }
}

/// The greatest depth among `cs`.
pub open spec fn children_depth(cs: Seq<Node>) -> nat
    decreases cs, 0nat,
{
    if cs.len() == 0 {
        0
    } else {
        let a = children_depth(cs.drop_last());
        let b = node_depth(cs.last());
        if a >= b {
            a
        } else {
            b
        }
    }
}

pub proof fn lemma_children_depth(cs: Seq<Node>, i: int)
    requires
        0 <= i < cs.len(),
    ensures
        node_depth(cs[i]) <= children_depth(cs),
        children_depth(cs.take(i)) <= children_depth(cs),
    decreases cs.len(),
{
    if i < cs.len() - 1 {
        lemma_children_depth(cs.drop_last(), i);
        assert(cs.drop_last()[i] == cs[i]);
        assert(cs.drop_last().take(i) =~= cs.take(i));
    } else {
        assert(cs.drop_last() =~= cs.take(i));
    }
}

/// Writes `n` levels of indentation.
fn write_indent(buffer: &mut String, n: usize)
    ensures
        final(buffer)@ == old(buffer)@ + indent_spaces(n as nat),
{
    let ghost start = buffer@;
    let mut i: usize = 0;
    while i < n
        invariant
            i <= n,
            buffer@ == start + indent_spaces(i as nat),
        decreases n - i,
    {
        buffer.append("    ");
        i = i + 1;
    }
}

/// Writes the list opening token of the call grammar.
fn write_list_open(buffer: &mut String, opts: Options)
    ensures
        final(buffer)@ == old(buffer)@ + list_open(opts),
{
    if opts.use_array {
        buffer.append("[");
    } else {
        buffer.append("vec![");
    }
}

/// Writes the closing line break before an element's closing token, where there is one.
fn write_closing_break(buffer: &mut String, children: &Vec<Node>, indent: usize)
    ensures
        final(buffer)@ == old(buffer)@ + closing_break(children@, indent as nat),
{
    if !(lone_text(children) || children.len() == 0) {
        buffer.append("\n");
        write_indent(buffer, indent);
    }
}

/// Whether `children` is a single text node.
pub fn lone_text(children: &Vec<Node>) -> (r: bool)
    ensures
        r == is_lone_text(children@),
{
    children.len() == 1 && match &children[0] {
        Node::Text(_) => true,
        _ => false,
    }
}

/// Writes the children that are not inlined, one per line at `indent + 1`.
fn write_children(buffer: &mut String, children: &Vec<Node>, opts: Options, indent: usize)
    requires
        indent + 1 + children_depth(children@) <= usize::MAX,
    ensures
        final(buffer)@ == old(buffer)@ + children_syntax(children@, opts, indent as nat),
    decreases children@, 1nat,
{
    let ghost start = buffer@;
    let mut i: usize = 0;
    while i < children.len()
        invariant
            i <= children@.len(),
            indent + 1 + children_depth(children@) <= usize::MAX,
            buffer@ == start + children_syntax(children@.take(i as int), opts, indent as nat),
        decreases children@.len() - i,
    {
        proof {
            lemma_children_depth(children@, i as int);
        }
        buffer.append("\n");
        match &children[i] {
            Node::Element(_) => {},
            _ => write_indent(buffer, indent + 1),
        }
        write_node(&children[i], buffer, opts, indent + 1);
        if !opts.use_macro {
            buffer.append(",");
        }
        proof {
            assert(children@.take(i as int + 1).drop_last() =~= children@.take(i as int));
            assert(children@.take(i as int + 1).last() == children@[i as int]);
        }
        i = i + 1;
    }
    assert(children@.take(i as int) =~= children@);
}

/// Writes the attributes of a tag literal.
fn write_macro_attributes(buffer: &mut String, attrs: &Vec<Attribute>)
    ensures
        final(buffer)@ == old(buffer)@ + macro_attributes(attrs@),
{
    let ghost start = buffer@;
    let mut i: usize = 0;
    while i < attrs.len()
        invariant
            i <= attrs@.len(),
            buffer@ == start + macro_attributes(attrs@.take(i as int)),
        decreases attrs@.len() - i,
    {
        buffer.append(" ");
        attrs[i].write(buffer, true);
        proof {
            assert(attrs@.take(i as int + 1).drop_last() =~= attrs@.take(i as int));
        }
        i = i + 1;
    }
    assert(attrs@.take(i as int) =~= attrs@);
}

/// Writes the attributes of a call, each followed by a comma.
fn write_call_attributes(buffer: &mut String, attrs: &Vec<Attribute>)
    ensures
        final(buffer)@ == old(buffer)@ + call_attributes(attrs@),
{
    let ghost start = buffer@;
    let total: usize = attrs.len();
    let mut i: usize = 0;
    while i < total
        invariant
            total == attrs@.len(),
            i <= total,
            buffer@ == start + call_attributes(attrs@.take(i as int)),
        decreases total - i,
    {
        attrs[i].write(buffer, false);
        buffer.append(",");
        proof {
            assert(attrs@.take(i as int + 1).drop_last() =~= attrs@.take(i as int));
        }
        i = i + 1;
    }
    assert(attrs@.take(i as int) =~= attrs@);
}

/// The children of an element: the lone text child inline, or each on its own line.
pub open spec fn body_syntax(children: Seq<Node>, opts: Options, indent: nat) -> Seq<char> {
    if is_lone_text(children) {
        node_syntax(children[0], opts, indent)
    } else {
        children_syntax(children, opts, indent)
    }
}

/// Writes the children of an element.
fn write_body(buffer: &mut String, children: &Vec<Node>, opts: Options, indent: usize)
    requires
        indent + 1 + children_depth(children@) <= usize::MAX,
    ensures
        final(buffer)@ == old(buffer)@ + body_syntax(children@, opts, indent as nat),
    decreases children@, 2nat,
{
    if lone_text(children) {
        proof {
            lemma_children_depth(children@, 0);
        }
        write_node(&children[0], buffer, opts, indent);
    } else {
        write_children(buffer, children, opts, indent);
    }
}

/// Writes an element from its opening token on.
fn write_element(e: &Element, buffer: &mut String, opts: Options, indent: usize)
    requires
        indent + 1 + children_depth(e.children@) <= usize::MAX,
    ensures
        final(buffer)@ == old(buffer)@ + element_syntax(
            e.tag@,
            e.attributes@,
            e.children@,
            opts,
            indent as nat,
        ),
    decreases e.children@, 3nat,
{
    let ghost start = buffer@;
    let ghost body = body_syntax(e.children@, opts, indent as nat);
    if opts.use_macro {
        let self_closing = is_self_closing(e.tag.as_str());
        buffer.append("<");
        buffer.append(e.tag.as_str());
        write_macro_attributes(buffer, &e.attributes);
        if self_closing {
            write_body(buffer, &e.children, opts, indent);
            buffer.append("/>");
            assert(buffer@ =~= start + ("<"@ + e.tag@ + macro_attributes(e.attributes@) + body
                + "/>"@));
        } else {
            buffer.append(">");
            write_body(buffer, &e.children, opts, indent);
            write_closing_break(buffer, &e.children, indent);
            buffer.append("</");
            buffer.append(e.tag.as_str());
            buffer.append(">");
            assert(buffer@ =~= start + ("<"@ + e.tag@ + macro_attributes(e.attributes@) + ">"@
                + body + closing_break(e.children@, indent as nat) + "</"@ + e.tag@ + ">"@));
        }
    } else {
        buffer.append(e.tag.as_str());
        buffer.append("(");
        write_list_open(buffer, opts);
        write_call_attributes(buffer, &e.attributes);
        buffer.append("],");
        write_list_open(buffer, opts);
        write_body(buffer, &e.children, opts, indent);
        write_closing_break(buffer, &e.children, indent);
        buffer.append("])");
        assert(buffer@ =~= start + (e.tag@ + "("@ + list_open(opts) + call_attributes(
            e.attributes@,
        ) + "],"@ + list_open(opts) + body + closing_break(e.children@, indent as nat)
            + "])"@));
    }
}

/// Writes node `n` at indent level `indent`.
fn write_node(n: &Node, buffer: &mut String, opts: Options, indent: usize)
    requires
        indent + node_depth(*n) <= usize::MAX,
    ensures
        final(buffer)@ == old(buffer)@ + node_syntax(*n, opts, indent as nat),
    decreases *n, 0nat,
{
    match n {
        Node::Text(t) => {
            if opts.use_macro {
                write_quoted(buffer, t.as_str());
            } else {
                buffer.append("text(");
                write_quoted(buffer, t.as_str());
                buffer.append(")");
            }
        },
        Node::Comment(c) => {
            buffer.append("comment(");
            write_quoted(buffer, c.as_str());
            buffer.append(")");
        },
        Node::Element(e) => {
            write_indent(buffer, indent);
            write_element(e, buffer, opts, indent);
        },
    }
}

/// Writes a value of the tree as the source text of a sauron view.
pub trait ToSyntax {
    /// The text written for this value at indent level `indent`.
    spec fn syntax(&self, options: Options, indent: nat) -> Seq<char>;

    /// Whether the indent levels that writing at `indent` reaches fit in a `usize`.
    spec fn fits(&self, indent: nat) -> bool;

    /// Appends the text to `buffer`.
    fn to_syntax(&self, buffer: &mut String, options: Options, indent: usize)
        requires
            self.fits(indent as nat),
        ensures
            final(buffer)@ == old(buffer)@ + self.syntax(options, indent as nat),
    ;
}

impl ToSyntax for Value {
    open spec fn syntax(&self, options: Options, indent: nat) -> Seq<char> {
        value_syntax(*self)
    }

    open spec fn fits(&self, indent: nat) -> bool {
        true
    }

    fn to_syntax(&self, buffer: &mut String, options: Options, indent: usize) {
        write_value(self, buffer);
    }
}

impl ToSyntax for Attribute {
    open spec fn syntax(&self, options: Options, indent: nat) -> Seq<char> {
        attribute_syntax(*self, options.use_macro)
    }

    open spec fn fits(&self, indent: nat) -> bool {
        true
    }

    fn to_syntax(&self, buffer: &mut String, options: Options, indent: usize) {
        self.write(buffer, options.use_macro);
    }
}

impl ToSyntax for Element {
    open spec fn syntax(&self, options: Options, indent: nat) -> Seq<char> {
        element_syntax(self.tag@, self.attributes@, self.children@, options, indent)
    }

    open spec fn fits(&self, indent: nat) -> bool {
        indent + 1 + children_depth(self.children@) <= usize::MAX
    }

    fn to_syntax(&self, buffer: &mut String, options: Options, indent: usize) {
        write_element(self, buffer, options, indent);
    }
}

impl ToSyntax for Node {
    open spec fn syntax(&self, options: Options, indent: nat) -> Seq<char> {
        node_syntax(*self, options, indent)
    }

    open spec fn fits(&self, indent: nat) -> bool {
        indent + node_depth(*self) <= usize::MAX
    }

    fn to_syntax(&self, buffer: &mut String, options: Options, indent: usize) {
        write_node(self, buffer, options, indent);
    }
}

} // verus!
