use sauron_syntax::{
    depth_within, forest_fits, lone_text, nodes_to_syntax,
    root_node, Attribute, AttributeValue, Element, Node, Options, ToSyntax, Value,
};

fn text(s: &str) -> Node {
    Node::Text(s.to_string())
}

fn el(tag: &str, attributes: Vec<Attribute>, children: Vec<Node>) -> Node {
    Node::Element(Element { tag: tag.to_string(), attributes, children })
}

fn attr(name: &str, value: &str) -> Attribute {
    Attribute {
        namespace: None,
        name: name.to_string(),
        values: vec![AttributeValue::Simple(Value::Str(value.to_string()))],
    }
}

fn style(decls: &[&str]) -> Attribute {
    Attribute {
        namespace: None,
        name: "style".to_string(),
        values: vec![AttributeValue::Style(decls.iter().map(|d| d.to_string()).collect())],
    }
}

const MACRO: Options = Options { use_macro: true, use_array: false };
const CALLS: Options = Options { use_macro: false, use_array: false };
const ARRAYS: Options = Options { use_macro: false, use_array: true };

fn three_divs() -> Vec<Node> {
    vec![
        el("div", vec![], vec![text("content1")]),
        el("div", vec![], vec![text("content2")]),
        el("div", vec![], vec![text("content3")]),
    ]
}

fn render(n: &Node, options: Options, indent: usize) -> String {
    let mut buffer = String::new();
    n.to_syntax(&mut buffer, options, indent);
    buffer
}

#[test]
fn three_siblings_macro_grammar_are_wrapped() {
    let expected = "node! {\n    <div>\n        <div>\"content1\"</div>\n        <div>\"content2\"</div>\n        <div>\"content3\"</div>\n    </div>\n}";
    assert_eq!(nodes_to_syntax(three_divs(), MACRO), expected);
}

#[test]
fn three_siblings_call_grammar_are_wrapped() {
    let expected = "div(vec![],vec![\n    div(vec![],vec![text(\"content1\")]),\n    div(vec![],vec![text(\"content2\")]),\n    div(vec![],vec![text(\"content3\")]),\n])";
    assert_eq!(nodes_to_syntax(three_divs(), CALLS), expected);
}

#[test]
fn three_siblings_array_grammar_are_wrapped() {
    let expected = "div([],[\n    div([],[text(\"content1\")]),\n    div([],[text(\"content2\")]),\n    div([],[text(\"content3\")]),\n])";
    assert_eq!(nodes_to_syntax(three_divs(), ARRAYS), expected);
}

#[test]
fn single_root_is_not_wrapped() {
    let forest = vec![el("p", vec![attr("class", "x")], vec![text("hi")])];
    assert_eq!(nodes_to_syntax(forest, CALLS), "p(vec![class(\"x\"),],vec![text(\"hi\")])");
    let forest = vec![el("p", vec![], vec![text("hi")])];
    assert_eq!(nodes_to_syntax(forest, MACRO), "node! {\n    <p>\"hi\"</p>\n}");
}

#[test]
fn empty_forest_gives_empty_html_root() {
    assert_eq!(nodes_to_syntax(vec![], MACRO), "node! {\n    <html></html>\n}");
    assert_eq!(nodes_to_syntax(vec![], CALLS), "html(vec![],vec![])");
    assert_eq!(nodes_to_syntax(vec![], ARRAYS), "html([],[])");
}

fn page() -> Node {
    el(
        "html",
        vec![attr("lang", "en")],
        vec![
            el(
                "head",
                vec![],
                vec![
                    el("meta", vec![attr("charset", "UTF-8")], vec![]),
                    el("title", vec![], vec![text("Interactive sauron app")]),
                    el("style", vec![attr("type", "text/css")], vec![text("\n  body {\n  }\n")]),
                ],
            ),
            el(
                "body",
                vec![style(&["margin:0", "padding:0"])],
                vec![el("div", vec![attr("id", "web-app")], vec![text("\n  #INSERTED#\n")])],
            ),
        ],
    )
}

#[test]
fn nested_page_macro_grammar() {
    let expected = "node! {\n    <html lang=\"en\">\n        <head>\n            <meta charset=\"UTF-8\"/>\n            <title>\"Interactive sauron app\"</title>\n            <style r#type=\"text/css\">\"\n  body {\n  }\n\"</style>\n        </head>\n        <body style=\"margin:0;padding:0;\">\n            <div id=\"web-app\">\"\n  #INSERTED#\n\"</div>\n        </body>\n    </html>\n}";
    assert_eq!(nodes_to_syntax(vec![page()], MACRO), expected);
}

#[test]
fn nested_page_call_grammar() {
    let expected = "html(vec![lang(\"en\"),],vec![\n    head(vec![],vec![\n        meta(vec![charset(\"UTF-8\"),],vec![]),\n        title(vec![],vec![text(\"Interactive sauron app\")]),\n        style(vec![r#type(\"text/css\"),],vec![text(\"\n  body {\n  }\n\")]),\n    ]),\n    body(vec![style(\"margin:0;padding:0;\"),],vec![\n        div(vec![id(\"web-app\"),],vec![text(\"\n  #INSERTED#\n\")]),\n    ]),\n])";
    assert_eq!(nodes_to_syntax(vec![page()], CALLS), expected);
}

fn svg() -> Node {
    let href = Attribute {
        namespace: Some("http://www.w3.org/1999/xlink".to_string()),
        name: "href".to_string(),
        values: vec![AttributeValue::Simple(Value::Str("data:image/jpeg".to_string()))],
    };
    el(
        "svg",
        vec![attr("height", "400")],
        vec![
            el(
                "defs",
                vec![],
                vec![el(
                    "filter",
                    vec![attr("id", "shadow")],
                    vec![el(
                        "feDropShadow",
                        vec![attr("dx", "2"), attr("dy", "1"), attr("stdDeviation", "0.2")],
                        vec![],
                    )],
                )],
            ),
            el("image", vec![href], vec![]),
            el("text", vec![attr("fill", "red"), attr("font-family", "monospace")], vec![text("John Smith")]),
        ],
    )
}

#[test]
fn svg_macro_grammar() {
    let expected = "node! {\n    <svg height=\"400\">\n        <defs>\n            <filter id=\"shadow\">\n                <feDropShadow dx=\"2\" dy=\"1\" std_deviation=\"0.2\"></feDropShadow>\n            </filter>\n        </defs>\n        <image xlink::href=\"data:image/jpeg\"></image>\n        <text fill=\"red\" font_family=\"monospace\">\"John Smith\"</text>\n    </svg>\n}";
    assert_eq!(nodes_to_syntax(vec![svg()], MACRO), expected);
}

#[test]
fn svg_call_grammar() {
    let expected = "svg(vec![height(\"400\"),],vec![\n    defs(vec![],vec![\n        filter(vec![id(\"shadow\"),],vec![\n            feDropShadow(vec![dx(\"2\"),dy(\"1\"),std_deviation(\"0.2\"),],vec![]),\n        ]),\n    ]),\n    image(vec![xlink_href(\"data:image/jpeg\"),],vec![]),\n    text(vec![fill(\"red\"),font_family(\"monospace\"),],vec![text(\"John Smith\")]),\n])";
    assert_eq!(nodes_to_syntax(vec![svg()], CALLS), expected);
}

#[test]
fn array_toggle_changes_only_list_tokens() {
    let with_vec = nodes_to_syntax(vec![page()], CALLS);
    let with_array = nodes_to_syntax(vec![page()], ARRAYS);
    assert_ne!(with_vec, with_array);
    assert_eq!(with_vec.replace("vec![", "["), with_array);
    let with_vec = nodes_to_syntax(vec![svg()], CALLS);
    let with_array = nodes_to_syntax(vec![svg()], ARRAYS);
    assert_eq!(with_vec.replace("vec![", "["), with_array);
}

#[test]
fn repeated_conversion_is_identical() {
    assert_eq!(nodes_to_syntax(vec![page()], MACRO), nodes_to_syntax(vec![page()], MACRO));
    assert_eq!(nodes_to_syntax(three_divs(), ARRAYS), nodes_to_syntax(three_divs(), ARRAYS));
}

#[test]
fn lone_text_child_is_inlined_in_both_grammars() {
    let n = el("span", vec![], vec![text("a")]);
    assert_eq!(render(&n, MACRO, 0), "<span>\"a\"</span>");
    assert_eq!(render(&n, CALLS, 0), "span(vec![],vec![text(\"a\")])");
    assert_eq!(render(&n, MACRO, 2), "        <span>\"a\"</span>");
}

#[test]
fn lone_comment_or_element_is_not_inlined() {
    let n = el("p", vec![], vec![Node::Comment("c".to_string())]);
    assert_eq!(render(&n, MACRO, 0), "<p>\n    comment(\"c\")\n</p>");
    assert_eq!(render(&n, CALLS, 0), "p(vec![],vec![\n    comment(\"c\"),\n])");
    let n = el("p", vec![], vec![el("b", vec![], vec![])]);
    assert_eq!(render(&n, MACRO, 0), "<p>\n    <b></b>\n</p>");
    assert_eq!(render(&n, CALLS, 0), "p(vec![],vec![\n    b(vec![],vec![]),\n])");
}

#[test]
fn two_text_children_are_each_on_a_line() {
    let n = el("p", vec![], vec![text("a"), text("b")]);
    assert_eq!(render(&n, MACRO, 0), "<p>\n    \"a\"\n    \"b\"\n</p>");
    assert_eq!(render(&n, CALLS, 1), "    p(vec![],vec![\n        text(\"a\"),\n        text(\"b\"),\n    ])");
}

#[test]
fn self_closing_tag_has_no_closing_token() {
    let n = el("br", vec![], vec![]);
    assert_eq!(render(&n, MACRO, 0), "<br/>");
    let n = el("input", vec![attr("type", "checkbox"), attr("id", "x")], vec![]);
    assert_eq!(render(&n, MACRO, 1), "    <input r#type=\"checkbox\" id=\"x\"/>");
    assert_eq!(render(&n, CALLS, 0), "input(vec![r#type(\"checkbox\"),id(\"x\"),],vec![])");
}

#[test]
fn self_closing_tag_with_child_still_ends_with_slash() {
    let n = el("br", vec![], vec![text("x")]);
    assert_eq!(render(&n, MACRO, 0), "<br\"x\"/>");
}

#[test]
fn attribute_order_is_kept() {
    let n = el("a", vec![attr("title", "t"), attr("href", "h"), attr("id", "i")], vec![]);
    assert_eq!(render(&n, MACRO, 0), "<a title=\"t\" href=\"h\" id=\"i\"></a>");
    assert_eq!(render(&n, CALLS, 0), "a(vec![title(\"t\"),href(\"h\"),id(\"i\"),],vec![])");
    assert_eq!(render(&n, ARRAYS, 0), "a([title(\"t\"),href(\"h\"),id(\"i\"),],[])");
}

#[test]
fn unmapped_attribute_uses_generic_form() {
    let a = attr("data-x", "1");
    let mut buffer = String::new();
    a.to_syntax(&mut buffer, MACRO, 0);
    assert_eq!(buffer, "data-x=\"1\"");
    let mut buffer = String::new();
    a.to_syntax(&mut buffer, CALLS, 0);
    assert_eq!(buffer, "attr(\"data-x\",\"1\")");
}

#[test]
fn keyword_attributes_are_renamed() {
    let a = attr("for", "name");
    let mut buffer = String::new();
    a.to_syntax(&mut buffer, CALLS, 0);
    assert_eq!(buffer, "r#for(\"name\")");
    let mut buffer = String::new();
    a.to_syntax(&mut buffer, MACRO, 0);
    assert_eq!(buffer, "r#for=\"name\"");
}

#[test]
fn style_declarations_fold_into_one_string() {
    let a = style(&["display:flex", "flex-direction:column", "display:block"]);
    let mut buffer = String::new();
    a.to_syntax(&mut buffer, MACRO, 0);
    assert_eq!(buffer, "style=\"display:flex;flex-direction:column;display:block;\"");
    let mut buffer = String::new();
    a.to_syntax(&mut buffer, CALLS, 0);
    assert_eq!(buffer, "style(\"display:flex;flex-direction:column;display:block;\")");
    let empty = style(&[]);
    let mut buffer = String::new();
    empty.to_syntax(&mut buffer, MACRO, 0);
    assert_eq!(buffer, "style=\"\"");
}

#[test]
fn empty_values_and_non_strings_write_nothing() {
    let a = Attribute { namespace: None, name: "hidden".to_string(), values: vec![AttributeValue::Empty] };
    let mut buffer = String::from("x");
    a.to_syntax(&mut buffer, CALLS, 0);
    assert_eq!(buffer, "x");
    let a = Attribute {
        namespace: None,
        name: "data-n".to_string(),
        values: vec![AttributeValue::Simple(Value::Int(7))],
    };
    let mut buffer = String::new();
    a.to_syntax(&mut buffer, CALLS, 0);
    assert_eq!(buffer, "attr(\"data-n\",)");
    let mut buffer = String::new();
    Value::Bool(true).to_syntax(&mut buffer, MACRO, 0);
    assert_eq!(buffer, "");
    Value::Str("q\"uote".to_string()).to_syntax(&mut buffer, MACRO, 0);
    assert_eq!(buffer, "\"q\"uote\"");
}

#[test]
fn text_and_comment_nodes() {
    assert_eq!(render(&text("a\nb"), MACRO, 3), "\"a\nb\"");
    assert_eq!(render(&text("a"), CALLS, 0), "text(\"a\")");
    assert_eq!(render(&Node::Comment("c".to_string()), MACRO, 0), "comment(\"c\")");
}

#[test]
fn attribute_names_follow_sauron_functions() {
    let n = el(
        "label",
        vec![attr("font-family", "serif"), attr("lang", "en"), attr("stroke-width", "1")],
        vec![],
    );
    assert_eq!(
        render(&n, CALLS, 0),
        "label(vec![font_family(\"serif\"),lang(\"en\"),stroke_width(\"1\"),],vec![])"
    );
    assert_eq!(render(&el("BR", vec![], vec![]), MACRO, 0), "<BR></BR>");
    assert_eq!(render(&el("meta", vec![], vec![]), MACRO, 0), "<meta/>");
}

#[test]
fn root_selection() {
    match root_node(vec![]) {
        Node::Element(e) => {
            assert_eq!(e.tag, "html");
            assert!(e.attributes.is_empty() && e.children.is_empty());
        }
        _ => panic!("expected an element"),
    }
    match root_node(three_divs()) {
        Node::Element(e) => {
            assert_eq!(e.tag, "div");
            assert_eq!(e.children.len(), 3);
        }
        _ => panic!("expected an element"),
    }
    match root_node(vec![text("t")]) {
        Node::Text(t) => assert_eq!(t, "t"),
        _ => panic!("expected the text itself"),
    }
}

#[test]
fn depth_checks() {
    let n = el("a", vec![], vec![el("b", vec![], vec![text("x")])]);
    assert!(depth_within(&n, 2));
    assert!(!depth_within(&n, 1));
    assert!(depth_within(&text("x"), 0));
    assert!(forest_fits(&vec![n]));
    assert!(lone_text(&vec![text("x")]));
    assert!(!lone_text(&vec![text("x"), text("y")]));
    assert!(!lone_text(&vec![]));
}

#[test]
fn values_without_string_form_write_nothing() {
    let a = Attribute {
        namespace: None,
        name: "width".to_string(),
        values: vec![AttributeValue::Simple(Value::Other), AttributeValue::Simple(Value::Bool(true))],
    };
    let mut buffer = String::new();
    a.to_syntax(&mut buffer, MACRO, 0);
    assert_eq!(buffer, "width=width=");
    let mut buffer = String::new();
    a.to_syntax(&mut buffer, CALLS, 0);
    assert_eq!(buffer, "width()width()");
}

#[test]
fn style_text_is_copied_verbatim() {
    let body = "\n        body {\n            font-family: \"Fira Sans\", \"Courier New\";\n        }\n    ";
    let n = el("style", vec![attr("type", "text/css")], vec![text(body)]);
    assert_eq!(
        render(&n, CALLS, 2),
        format!("        style(vec![r#type(\"text/css\"),],vec![text(\"{}\")])", body)
    );
    assert_eq!(
        render(&n, MACRO, 2),
        format!("        <style r#type=\"text/css\">\"{}\"</style>", body)
    );
}

#[test]
fn children_lines_are_indented_per_level() {
    let n = el(
        "ul",
        vec![],
        vec![text("a"), el("li", vec![], vec![text("b"), Node::Comment("c".to_string())])],
    );
    assert_eq!(
        render(&n, MACRO, 1),
        "    <ul>\n        \"a\"\n        <li>\n            \"b\"\n            comment(\"c\")\n        </li>\n    </ul>"
    );
    assert_eq!(
        render(&n, ARRAYS, 0),
        "ul([],[\n    text(\"a\"),\n    li([],[\n        text(\"b\"),\n        comment(\"c\"),\n    ]),\n])"
    );
}
