use forge_rsx::attributes::render_attribute;
use forge_rsx::get_char;
use forge_rsx::markup::{Attribute, Element, Node, RenderMode};
use forge_rsx::render::{is_void_tag, render, render_at, render_document};

fn all_modes() -> Vec<RenderMode> {
    vec![RenderMode::Lined, RenderMode::Indent(0), RenderMode::Indent(2), RenderMode::Indent(4)]
}

fn el(e: Element) -> Node {
    Node::Element(e)
}

#[test]
fn get_char_bounds() {
    assert_eq!(get_char("Hello", 0), "");
    assert_eq!(get_char("Hello", 1), "H");
    assert_eq!(get_char("Hello", 5), "o");
    assert_eq!(get_char("Hello", 6), "");
    assert_eq!(get_char("Hello", 50), "");
    assert_eq!(get_char("", 1), "");
}

#[test]
fn get_char_counts_characters_not_bytes() {
    let s = "🍎 Apple";
    assert_eq!(get_char(s, 1), "🍎");
    assert_eq!(get_char(s, 3), "A");
    assert_eq!(get_char(s, 7), "e");
    assert_eq!(get_char(s, 8), "");
}

#[test]
fn childless_element_every_mode() {
    for mode in all_modes() {
        assert_eq!(render(&el(Element::new("p")), mode), "<p></p>");
        let div = Element::new("div").attr("class", "box");
        assert_eq!(render(&el(div), mode), "<div class=\"box\"></div>");
    }
}

#[test]
fn childless_element_keeps_its_indentation() {
    assert_eq!(render_at(&el(Element::new("p")), RenderMode::Indent(2), 2), "    <p></p>");
    assert_eq!(render_at(&el(Element::new("p")), RenderMode::Indent(4), 1), "    <p></p>");
    assert_eq!(render_at(&el(Element::new("p")), RenderMode::Lined, 3), "<p></p>");
}

#[test]
fn void_tags_never_close() {
    let tags = [
        "area", "base", "br", "col", "embed", "hr", "img", "input", "link", "meta", "source",
        "track", "wbr",
    ];
    for tag in tags {
        assert!(is_void_tag(tag));
        for mode in all_modes() {
            let e = Element::new(tag).attr("id", "x").child(Node::text("ignored"));
            let out = render(&el(e), mode);
            assert_eq!(out, format!("<{} id=\"x\">", tag));
            assert!(!out.contains("</"));
            assert!(!out.contains("ignored"));
        }
    }
    assert!(!is_void_tag("div"));
    assert!(!is_void_tag("brr"));
    assert!(!is_void_tag(""));
}

#[test]
fn boolean_attributes() {
    let cases = [("defer", "defer"), ("hx-boost", "hx-boost"), (":open", ":open"), ("@click", "@click")];
    for (key, bare) in cases {
        let on = Attribute::new(key, "true");
        assert_eq!(render_attribute(&on), format!(" {}", bare));
        let off = Attribute::new(key, "false");
        assert_eq!(render_attribute(&off), "");
    }
    let e = Element::new("script").attr("defer", "true").attr("async", "false").attr("src", "a.js");
    assert_eq!(render(&el(e), RenderMode::Lined), "<script defer src=\"a.js\"></script>");
}

#[test]
fn quoting_rules() {
    assert_eq!(render_attribute(&Attribute::new("x-show", "open")), " x-show='open'");
    assert_eq!(render_attribute(&Attribute::new(":class", "p-4")), " :class='p-4'");
    assert_eq!(render_attribute(&Attribute::new("@click", "go()")), " @click='go()'");
    assert_eq!(render_attribute(&Attribute::new("hx-get", "/a")), " hx-get='/a'");
    assert_eq!(render_attribute(&Attribute::new("x-show", "")), " x-show=''");
    assert_eq!(render_attribute(&Attribute::new("data", "{\"a\": 1}")), " data='{\"a\": 1}'");
    assert_eq!(render_attribute(&Attribute::new("data", "say \\\"hi\\\"")), " data='say \"hi\"'");
    assert_eq!(render_attribute(&Attribute::new("id", "my-id")), " id=\"my-id\"");
    assert_eq!(render_attribute(&Attribute::new("class", "a\\b")), " class=\"a\\b\"");
    assert_eq!(render_attribute(&Attribute::new("x", "y")), " x=\"y\"");
}

#[test]
fn duplicate_attributes_all_render() {
    let e = Element::new("a").attr("class", "one").attr("class", "two");
    assert_eq!(render(&el(e), RenderMode::Lined), "<a class=\"one\" class=\"two\"></a>");
}

#[test]
fn lined_and_unindented_agree_without_newlines() {
    let tree = el(Element::new("div")
        .attr("id", "main")
        .child(Node::text("hello"))
        .child(el(Element::new("span").child(Node::text("inner"))))
        .child(el(Element::new("br")))
        .child(Node::Loop(vec![
            Element::new("li").child(Node::text("a")),
            Element::new("li").child(Node::text("b")),
        ])));
    let lined = render(&tree, RenderMode::Lined);
    let zero = render(&tree, RenderMode::Indent(0));
    assert_eq!(lined, "<div id=\"main\">hello<span>inner</span><br><li>a</li><li>b</li></div>");
    assert_eq!(zero, "<div id=\"main\">\nhello\n<span>\ninner\n</span>\n<br>\n<li>\na\n</li>\n<li>\nb\n</li>\n</div>");
    assert_eq!(zero.replace('\n', ""), lined.replace('\n', ""));
}

fn li_item(item: &str) -> Element {
    Element::new("li").child(Node::text(item))
}

#[test]
fn loop_matches_manual_concatenation() {
    for mode in all_modes() {
        let sep = if mode == RenderMode::Lined { "" } else { "\n" };
        let items = ["a", "b", "c"];
        let looped = Node::Loop(items.iter().map(|i| li_item(i)).collect());
        let manual: Vec<String> = items.iter().map(|i| render_at(&el(li_item(i)), mode, 1)).collect();
        assert_eq!(render_at(&looped, mode, 1), manual.join(sep));
        let ul = el(Element::new("ul").child(looped));
        let expected = match mode {
            RenderMode::Lined => "<ul><li>a</li><li>b</li><li>c</li></ul>".to_string(),
            _ => format!("<ul>\n{}\n</ul>", manual.join("\n")),
        };
        assert_eq!(render(&ul, mode), expected);
    }
    let ul = el(Element::new("ul").child(Node::Loop(vec![li_item("a"), li_item("b"), li_item("c")])));
    assert_eq!(
        render(&ul, RenderMode::Indent(2)),
        "<ul>\n  <li>\n    a\n  </li>\n  <li>\n    b\n  </li>\n  <li>\n    c\n  </li>\n</ul>"
    );
}

#[test]
fn empty_loop_leaves_element_empty() {
    let ul = el(Element::new("ul").child(Node::Loop(Vec::new())));
    for mode in all_modes() {
        assert_eq!(render(&ul, mode), "<ul></ul>");
    }
}

#[test]
fn paragraph_scenarios() {
    assert_eq!(render(&el(Element::new("p")), RenderMode::Indent(2)), "<p></p>");
    let p = el(Element::new("p").child(Node::text("...")));
    assert_eq!(render(&p, RenderMode::Indent(2)), "<p>\n  ...\n</p>");
    assert_eq!(render(&p, RenderMode::Indent(0)), "<p>\n...\n</p>");
    assert_eq!(render(&p, RenderMode::Lined), "<p>...</p>");
}

#[test]
fn doctype_document() {
    let html = Element::new("html")
        .child(el(Element::new("head")))
        .child(el(Element::new("body")));
    let tree = el(html);
    for mode in all_modes() {
        assert!(render_document(&tree, mode).starts_with("<!DOCTYPE html>\n"));
    }
    assert_eq!(render_document(&tree, RenderMode::Lined), "<!DOCTYPE html>\n<html><head></head><body></body></html>");
    assert_eq!(
        render_document(&tree, RenderMode::Indent(4)),
        "<!DOCTYPE html>\n<html>\n    <head></head>\n    <body></body>\n</html>"
    );
}

#[test]
fn nested_document_four_spaces() {
    let head = Element::new("head")
        .child(el(Element::new("meta").attr("charset", "UTF-8")))
        .child(el(Element::new("title").child(Node::text("Demo"))));
    let body = Element::new("body")
        .attr("x-data", "{ open: false }")
        .child(el(Element::new("h1").child(Node::text("Welcome"))))
        .child(el(Element::new("br")));
    let html = el(Element::new("html").child(el(head)).child(el(body)));
    let expected = "<!DOCTYPE html>\n<html>\n    <head>\n        <meta charset=\"UTF-8\">\n        <title>\n            Demo\n        </title>\n    </head>\n    <body x-data='{ open: false }'>\n        <h1>\n            Welcome\n        </h1>\n        <br>\n    </body>\n</html>";
    assert_eq!(render_document(&html, RenderMode::Indent(4)), expected);
}

#[test]
fn mixed_children_keep_order() {
    let li = el(Element::new("li")
        .child(Node::text("<!-- note -->"))
        .child(Node::text("<span>🍎 Apple</span>"))
        .child(Node::text("🍎")));
    assert_eq!(
        render_at(&li, RenderMode::Indent(4), 3),
        "            <li>\n                <!-- note -->\n                <span>🍎 Apple</span>\n                🍎\n            </li>"
    );
}

#[test]
fn empty_text_children() {
    let p = el(Element::new("p").child(Node::text("")));
    assert_eq!(render(&p, RenderMode::Lined), "<p></p>");
    assert_eq!(render(&p, RenderMode::Indent(2)), "<p>\n  \n</p>");
}

#[test]
fn text_node_at_depth() {
    assert_eq!(render_at(&Node::text("hi"), RenderMode::Indent(2), 2), "    hi");
    assert_eq!(render_at(&Node::text("hi"), RenderMode::Lined, 2), "hi");
}
